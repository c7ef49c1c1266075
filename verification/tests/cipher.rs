use aes::cipher::BlockEncrypt;
use aes::cipher::KeyInit;
use cipher_bench::cipher::Batch;
use cipher_bench::cipher::Cipher;
use cipher_bench::cipher::BLOCK_BYTES;
use cipher_bench::cipher::KEY_BYTES;

fn bytes(hex: &str) -> [u8; 16] {
    let mut out = [0u8; 16];
    for i in 0..16 {
        out[i] = u8::from_str_radix(&hex[2 * i..2 * i + 2], 16).unwrap();
    }
    out
}

#[test]
fn widths_are_sixteen_bytes() {
    assert_eq!(BLOCK_BYTES, 16);
    assert_eq!(KEY_BYTES, 16);
}

#[test]
fn filled_batch_holds_copies_of_the_block() {
    let batch = Batch::filled(&[42u8; 16], 100);
    assert_eq!(batch.len(), 100);
    assert_eq!(batch.to_bytes(), vec![[42u8; 16]; 100]);
}

#[test]
fn filled_batch_of_no_blocks_is_empty() {
    let batch = Batch::filled(&[42u8; 16], 0);
    assert_eq!(batch.len(), 0);
    assert_eq!(batch.to_bytes(), Vec::<[u8; 16]>::new());
}

#[test]
fn filled_batch_keeps_the_order_of_the_bytes() {
    let block = bytes("00112233445566778899aabbccddeeff");
    let batch = Batch::filled(&block, 3);
    assert_eq!(batch.to_bytes(), vec![block, block, block]);
}

#[test]
fn encryption_matches_the_standard_example_vector() {
    let cipher = Cipher::new(&bytes("000102030405060708090a0b0c0d0e0f"));
    let mut batch = Batch::filled(&bytes("00112233445566778899aabbccddeeff"), 1);
    cipher.encrypt_batch(&mut batch);
    assert_eq!(batch.to_bytes(), vec![bytes("69c4e0d86a7b0430d8cdb78070b4c55a")]);
}

#[test]
fn encryption_matches_the_standard_cipher_example() {
    let cipher = Cipher::new(&bytes("2b7e151628aed2a6abf7158809cf4f3c"));
    let mut batch = Batch::filled(&bytes("3243f6a8885a308d313198a2e0370734"), 2);
    cipher.encrypt_batch(&mut batch);
    let expected = bytes("3925841d02dc09fbdc118597196a0b32");
    assert_eq!(batch.to_bytes(), vec![expected, expected]);
}

#[test]
fn decryption_matches_the_standard_example_vector() {
    let cipher = Cipher::new(&bytes("000102030405060708090a0b0c0d0e0f"));
    let mut batch = Batch::filled(&bytes("69c4e0d86a7b0430d8cdb78070b4c55a"), 9);
    cipher.decrypt_batch(&mut batch);
    assert_eq!(batch.to_bytes(), vec![bytes("00112233445566778899aabbccddeeff"); 9]);
}

#[test]
fn ciphertext_depends_on_the_key() {
    let block = [42u8; 16];
    let mut first = Batch::filled(&block, 1);
    let mut second = Batch::filled(&block, 1);
    Cipher::new(&[0u8; 16]).encrypt_batch(&mut first);
    Cipher::new(&[1u8; 16]).encrypt_batch(&mut second);
    assert_ne!(first.to_bytes(), second.to_bytes());
}

#[test]
fn encrypt_then_decrypt_restores_the_batch() {
    let cipher = Cipher::new(&[0u8; 16]);
    let mut batch = Batch::filled(&[42u8; 16], 100);
    cipher.encrypt_batch(&mut batch);
    assert_ne!(batch.to_bytes(), vec![[42u8; 16]; 100]);
    cipher.decrypt_batch(&mut batch);
    assert_eq!(batch.to_bytes(), vec![[42u8; 16]; 100]);
}

#[test]
fn decrypt_then_encrypt_restores_the_batch() {
    let cipher = Cipher::new(&[7u8; 16]);
    let mut batch = Batch::filled(&[42u8; 16], 17);
    cipher.decrypt_batch(&mut batch);
    assert_ne!(batch.to_bytes(), vec![[42u8; 16]; 17]);
    cipher.encrypt_batch(&mut batch);
    assert_eq!(batch.to_bytes(), vec![[42u8; 16]; 17]);
}

#[test]
fn library_agrees_with_the_cipher_called_directly() {
    let key = [0u8; 16];
    let mut direct = [aes::Block::from([42u8; 16]); 100];
    aes::Aes128::new(&aes::Block::from(key)).encrypt_blocks(&mut direct);
    let direct: Vec<[u8; 16]> = direct.iter().map(|b| (*b).into()).collect();
    let mut batch = Batch::filled(&[42u8; 16], 100);
    Cipher::new(&key).encrypt_batch(&mut batch);
    assert_eq!(batch.to_bytes(), direct);
}

#[test]
fn empty_batch_passes_through_the_cipher() {
    let cipher = Cipher::new(&[0u8; 16]);
    let mut batch = Batch::filled(&[42u8; 16], 0);
    cipher.encrypt_batch(&mut batch);
    assert_eq!(batch.len(), 0);
    cipher.decrypt_batch(&mut batch);
    assert_eq!(batch.len(), 0);
}
