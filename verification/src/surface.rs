//! The report surface: the canvas that the program owns, and the drawing
//! commands that show the three totals on it.
//!
//! Nothing here talks to a display service. [`ReportSurface::redraw`] returns the
//! commands of one redraw in the order in which they are to be submitted; the
//! program that owns the connection submits them.

use vstd::prelude::*;
use crate::decimal::decimal_digits;
use crate::decimal::decimal_text;
use crate::message::Opcode;
use crate::message::REDRAW_ID;

verus! {

/// A pixel position, or the extent of a canvas.
#[derive(Clone, Copy, Debug, PartialEq, Eq)]
pub struct Point {
    pub x: i16,
    pub y: i16,
}

/// The handle by which the display service knows a canvas.
#[derive(Clone, Copy, Debug, PartialEq, Eq)]
pub struct CanvasId {
    pub gid: [u32; 4],
}

/// The two colours of the display.
#[derive(Clone, Copy, Debug, PartialEq, Eq)]
pub enum PixelColor {
    Dark,
    Light,
}

/// How a shape is filled and outlined.
#[derive(Clone, Copy, Debug, PartialEq, Eq)]
pub struct DrawStyle {
    pub fill_color: Option<PixelColor>,
    pub stroke_color: Option<PixelColor>,
    pub stroke_width: i16,
}

/// A styled rectangle, given by its top-left and bottom-right corners.
#[derive(Clone, Copy, Debug, PartialEq, Eq)]
pub struct Rectangle {
    pub tl: Point,
    pub br: Point,
    pub style: DrawStyle,
}

/// The weight of the glyphs of a panel.
#[derive(Clone, Copy, Debug, PartialEq, Eq)]
pub enum GlyphStyle {
    Small,
    Regular,
    Bold,
}

/// One bordered text box. The box hangs on `anchor`, its bottom-right corner,
/// and grows from there towards the top left, at most `max_width` pixels wide.
#[derive(Clone, Debug, PartialEq, Eq)]
pub struct Panel {
    pub canvas: CanvasId,
    pub anchor: Point,
    pub max_width: u16,
    pub border_width: u16,
    pub draw_border: bool,
    pub clear_area: bool,
    pub rounded_border: Option<u16>,
    pub style: GlyphStyle,
    pub text: String,
}

/// A [`Panel`] with its text as a sequence of characters.
pub struct PanelModel {
    pub canvas: CanvasId,
    pub anchor: Point,
    pub max_width: u16,
    pub border_width: u16,
    pub draw_border: bool,
    pub clear_area: bool,
    pub rounded_border: Option<u16>,
    pub style: GlyphStyle,
    pub text: Seq<char>,
}

impl View for Panel {
    type V = PanelModel;

    open spec fn view(&self) -> PanelModel {
        PanelModel {
            canvas: self.canvas,
            anchor: self.anchor,
            max_width: self.max_width,
            border_width: self.border_width,
            draw_border: self.draw_border,
            clear_area: self.clear_area,
            rounded_border: self.rounded_border,
            style: self.style,
            text: self.text@,
        }
    }
}

/// One request to the display service.
#[derive(Clone, Debug, PartialEq, Eq)]
pub enum DrawCommand {
    /// Draw a styled rectangle on the canvas.
    FillRect(Rectangle),
    /// Draw a text panel on the canvas.
    PostText(Panel),
    /// Bring everything drawn so far to the screen.
    Flush,
}

/// A [`DrawCommand`] whose panel is a [`PanelModel`].
pub enum DrawCommandModel {
    FillRect(Rectangle),
    PostText(PanelModel),
    Flush,
}

impl View for DrawCommand {
    type V = DrawCommandModel;

    open spec fn view(&self) -> DrawCommandModel {
        match *self {
            DrawCommand::FillRect(rect) => DrawCommandModel::FillRect(rect),
            DrawCommand::PostText(panel) => DrawCommandModel::PostText(panel@),
            DrawCommand::Flush => DrawCommandModel::Flush,
        }
    }
}

/// The views of a list of commands, in the same order.
pub open spec fn command_models(commands: Seq<DrawCommand>) -> Seq<DrawCommandModel> {
    commands.map_values(|c: DrawCommand| c@)
}

/// The divisor that insets the panel of the key-setup total.
pub const KEYGEN_DIVISOR: i16 = 2;

/// The divisor that insets the panel of the encryption total.
pub const ENCRYPT_DIVISOR: i16 = 3;

/// The divisor that insets the panel of the decryption total.
pub const DECRYPT_DIVISOR: i16 = 4;

/// Where the panel with inset `divisor` hangs on a canvas `width` pixels wide
/// and `height` pixels high: half the width in from the right edge, and the
/// `divisor`-th part of the height up from the bottom edge.
pub open spec fn panel_anchor(width: int, height: int, divisor: int) -> (int, int) {
    (width - width / 2, height - height / divisor)
}

/// The width of every panel on a canvas `width` pixels wide: a fifth of the
/// canvas width, rounded down, four times.
pub open spec fn panel_width(width: int) -> int {
    width / 5 * 4
}

/// The rectangle that erases a canvas of extent `size`: from the origin to the
/// far corner, filled light, without an outline.
pub open spec fn clear_rectangle(size: Point) -> Rectangle {
    Rectangle {
        tl: Point { x: 0, y: 0 },
        br: size,
        style: DrawStyle {
            fill_color: Some(PixelColor::Light),
            stroke_color: None,
            stroke_width: 0,
        },
    }
}

/// The panel that shows `total` on canvas `canvas` of extent `size`, inset by
/// `divisor`.
pub open spec fn panel_model(canvas: CanvasId, size: Point, divisor: int, total: nat) -> PanelModel {
    PanelModel {
        canvas,
        anchor: Point {
            x: panel_anchor(size.x as int, size.y as int, divisor).0 as i16,
            y: panel_anchor(size.x as int, size.y as int, divisor).1 as i16,
        },
        max_width: panel_width(size.x as int) as u16,
        border_width: 1,
        draw_border: true,
        clear_area: true,
        rounded_border: Some(3u16),
        style: GlyphStyle::Regular,
        text: decimal_digits(total),
    }
}

/// The commands of one redraw: erase the canvas, post the panels of the three
/// totals, flush.
pub open spec fn redraw_plan(
    canvas: CanvasId,
    size: Point,
    keygen_total: nat,
    encrypt_total: nat,
    decrypt_total: nat,
) -> Seq<DrawCommandModel> {
    seq![
        DrawCommandModel::FillRect(clear_rectangle(size)),
        DrawCommandModel::PostText(panel_model(canvas, size, KEYGEN_DIVISOR as int, keygen_total)),
        DrawCommandModel::PostText(panel_model(canvas, size, ENCRYPT_DIVISOR as int, encrypt_total)),
        DrawCommandModel::PostText(panel_model(canvas, size, DECRYPT_DIVISOR as int, decrypt_total)),
        DrawCommandModel::Flush,
    ]
}

/// The ways in which a client of the display service takes part in it.
#[derive(Clone, Copy, Debug, PartialEq, Eq)]
pub enum UxType {
    Chat,
    Menu,
    Modal,
}

/// What a client tells the display service when it registers: who it is, how
/// it takes part, where its messages go, and with which identity each kind of
/// event is to be announced to it. An event without an identity is not
/// announced.
#[derive(Clone, Debug, PartialEq, Eq)]
pub struct UxRegistration {
    pub app_name: String,
    pub ux_type: UxType,
    pub predictor: Option<String>,
    pub listener: [u32; 4],
    pub redraw_id: u32,
    pub gotinput_id: Option<u32>,
    pub audioframe_id: Option<u32>,
    pub rawkeys_id: Option<u32>,
    pub focuschange_id: Option<u32>,
}

/// The registration of the program: a chat-like client under the name given,
/// that listens on `listener` and wants to hear of redraws, and of nothing
/// else.
pub fn ux_registration(app_name: String, listener: [u32; 4]) -> (registration: UxRegistration)
    ensures
        registration.app_name@ == app_name@,
        registration.ux_type == UxType::Chat,
        registration.predictor is None,
        registration.listener == listener,
        registration.redraw_id == REDRAW_ID,
        registration.gotinput_id is None,
        registration.audioframe_id is None,
        registration.rawkeys_id is None,
        registration.focuschange_id is None,
{
    UxRegistration {
        app_name,
        ux_type: UxType::Chat,
        predictor: None,
        listener,
        redraw_id: Opcode::Redraw.to_u32(),
        gotinput_id: None,
        audioframe_id: None,
        rawkeys_id: None,
        focuschange_id: None,
    }
}

/// The canvas of the program, as the display service handed it out.
#[derive(Clone, Copy, Debug, PartialEq, Eq)]
pub struct ReportSurface {
    content: CanvasId,
    token: [u32; 4],
    screensize: Point,
}

/// What a [`ReportSurface`] holds.
pub struct SurfaceModel {
    /// The canvas that the panels are drawn on.
    pub content: CanvasId,
    /// The token under which the program is registered with the display service.
    pub token: [u32; 4],
    /// The extent of the canvas in pixels.
    pub screensize: Point,
}

impl View for ReportSurface {
    type V = SurfaceModel;

    closed spec fn view(&self) -> SurfaceModel {
        SurfaceModel { content: self.content, token: self.token, screensize: self.screensize }
    }
}

impl ReportSurface {
    /// A canvas has no negative extent.
    #[verifier::type_invariant]
    pub closed spec fn wf(&self) -> bool {
        self.screensize.x >= 0 && self.screensize.y >= 0
    }

    /// Takes what the display service answered at start-up: the registration
    /// token, the content canvas and its extent. An extent with a negative
    /// part describes no canvas.
    pub fn new(token: [u32; 4], content: CanvasId, screensize: Point) -> (surface: Option<
        ReportSurface,
    >)
        ensures
            surface is Some <==> screensize.x >= 0 && screensize.y >= 0,
            surface matches Some(s) ==> s@ == (SurfaceModel { content, token, screensize }),
    {
        if screensize.x >= 0 && screensize.y >= 0 {
            Some(ReportSurface { content, token, screensize })
        } else {
            None
        }
    }

    /// The canvas that the panels are drawn on.
    pub fn content(&self) -> (content: CanvasId)
        ensures
            content == self@.content,
    {
        self.content
    }

    /// The token under which the program is registered with the display service.
    pub fn token(&self) -> (token: [u32; 4])
        ensures
            token == self@.token,
    {
        self.token
    }

    /// The extent of the canvas in pixels, which has no negative part.
    pub fn screensize(&self) -> (size: Point)
        ensures
            size == self@.screensize,
            size.x >= 0,
            size.y >= 0,
    {
        proof {
            use_type_invariant(self);
        }
        self.screensize
    }

    /// The rectangle that erases the whole canvas.
    pub fn clear_area(&self) -> (rect: Rectangle)
        ensures
            rect == clear_rectangle(self@.screensize),
    {
        Rectangle {
            tl: Point { x: 0, y: 0 },
            br: self.screensize,
            style: DrawStyle {
                fill_color: Some(PixelColor::Light),
                stroke_color: None,
                stroke_width: 0,
            },
        }
    }

    /// The panel that shows `total`, inset by `divisor`.
    pub fn build_panel(&self, divisor: i16, total: u128) -> (panel: Panel)
        requires
            divisor >= 1,
        ensures
            panel@ == panel_model(self@.content, self@.screensize, divisor as int, total as nat),
            (panel.anchor.x as int, panel.anchor.y as int) == panel_anchor(
                self@.screensize.x as int,
                self@.screensize.y as int,
                divisor as int,
            ),
            panel.max_width == panel_width(self@.screensize.x as int),
    {
        proof {
            use_type_invariant(self);
        }
        let x: i16 = self.screensize.x - self.screensize.x / 2;
        let y: i16 = self.screensize.y - self.screensize.y / divisor;
        let width: u16 = (self.screensize.x / 5 * 4) as u16;
        Panel {
            canvas: self.content,
            anchor: Point { x, y },
            max_width: width,
            border_width: 1,
            draw_border: true,
            clear_area: true,
            rounded_border: Some(3),
            style: GlyphStyle::Regular,
            text: decimal_text(total),
        }
    }

    /// The commands of one redraw, in the order in which they are submitted.
    pub fn redraw(&self, keygen_total: u128, encrypt_total: u128, decrypt_total: u128) -> (commands:
        Vec<DrawCommand>)
        ensures
            commands@.len() == 5,
            command_models(commands@) == redraw_plan(
                self@.content,
                self@.screensize,
                keygen_total as nat,
                encrypt_total as nat,
                decrypt_total as nat,
            ),
    {
        let mut commands: Vec<DrawCommand> = Vec::new();
        commands.push(DrawCommand::FillRect(self.clear_area()));
        commands.push(DrawCommand::PostText(self.build_panel(KEYGEN_DIVISOR, keygen_total)));
        commands.push(DrawCommand::PostText(self.build_panel(ENCRYPT_DIVISOR, encrypt_total)));
        commands.push(DrawCommand::PostText(self.build_panel(DECRYPT_DIVISOR, decrypt_total)));
        commands.push(DrawCommand::Flush);
        assert(command_models(commands@) =~= redraw_plan(
            self@.content,
            self@.screensize,
            keygen_total as nat,
            encrypt_total as nat,
            decrypt_total as nat,
        ));
        commands
    }
}

/// A canvas as a renderer leaves it, where what is rendered depends on nothing
/// but the commands given.
pub struct CanvasModel {
    /// The extent of the canvas.
    pub size: Point,
    /// The commands that still contribute to the canvas, oldest first.
    pub drawn: Seq<DrawCommandModel>,
    /// The commands that contribute to what is on the screen, oldest first.
    pub shown: Seq<DrawCommandModel>,
}

/// A filled rectangle that spans a whole canvas of extent `size` leaves
/// nothing of what was drawn before it.
pub open spec fn erases(size: Point, rect: Rectangle) -> bool {
    rect.tl == (Point { x: 0, y: 0 }) && rect.br == size && rect.style.fill_color is Some
}

/// The canvas after one more command.
pub open spec fn draw(canvas: CanvasModel, command: DrawCommandModel) -> CanvasModel {
    match command {
        DrawCommandModel::FillRect(rect) => if erases(canvas.size, rect) {
            CanvasModel { drawn: seq![command], ..canvas }
        } else {
            CanvasModel { drawn: canvas.drawn.push(command), ..canvas }
        },
        DrawCommandModel::PostText(_) => CanvasModel { drawn: canvas.drawn.push(command), ..canvas },
        DrawCommandModel::Flush => CanvasModel { shown: canvas.drawn, ..canvas },
    }
}

/// The canvas after a list of commands, submitted in order.
pub open spec fn draw_all(canvas: CanvasModel, commands: Seq<DrawCommandModel>) -> CanvasModel
    decreases commands.len(),
{
    if commands.len() == 0 {
        canvas
    } else {
        draw(draw_all(canvas, commands.drop_last()), commands.last())
    }
}

/// What a redraw leaves on a canvas does not depend on what the canvas held
/// before: two canvases of one extent are the same after the same redraw.
pub proof fn lemma_redraw_forgets_history(
    first: CanvasModel,
    second: CanvasModel,
    canvas: CanvasId,
    keygen_total: nat,
    encrypt_total: nat,
    decrypt_total: nat,
)
    requires
        first.size == second.size,
    ensures
        draw_all(
            first,
            redraw_plan(canvas, first.size, keygen_total, encrypt_total, decrypt_total),
        ) == draw_all(
            second,
            redraw_plan(canvas, first.size, keygen_total, encrypt_total, decrypt_total),
        ),
{
    lemma_redraw_result(first, canvas, keygen_total, encrypt_total, decrypt_total);
    lemma_redraw_result(second, canvas, keygen_total, encrypt_total, decrypt_total);
}

/// A redraw is idempotent: the same redraw again, with the same totals, leaves
/// the canvas as the first one left it.
pub proof fn lemma_redraw_idempotent(
    before: CanvasModel,
    canvas: CanvasId,
    keygen_total: nat,
    encrypt_total: nat,
    decrypt_total: nat,
)
    ensures
        ({
            let plan = redraw_plan(canvas, before.size, keygen_total, encrypt_total, decrypt_total);
            draw_all(draw_all(before, plan), plan) == draw_all(before, plan)
        }),
{
    let plan = redraw_plan(canvas, before.size, keygen_total, encrypt_total, decrypt_total);
    lemma_redraw_result(before, canvas, keygen_total, encrypt_total, decrypt_total);
    lemma_redraw_result(
        draw_all(before, plan),
        canvas,
        keygen_total,
        encrypt_total,
        decrypt_total,
    );
}

/// After a redraw the canvas holds the erasing rectangle and the three panels,
/// and shows them.
pub proof fn lemma_redraw_result(
    before: CanvasModel,
    canvas: CanvasId,
    keygen_total: nat,
    encrypt_total: nat,
    decrypt_total: nat,
)
    ensures
        ({
            let plan = redraw_plan(canvas, before.size, keygen_total, encrypt_total, decrypt_total);
            draw_all(before, plan) == (CanvasModel {
                size: before.size,
                drawn: plan.drop_last(),
                shown: plan.drop_last(),
            })
        }),
{
    let plan = redraw_plan(canvas, before.size, keygen_total, encrypt_total, decrypt_total);
    let p4 = plan.drop_last();
    let p3 = p4.drop_last();
    let p2 = p3.drop_last();
    let p1 = p2.drop_last();
    let p0 = p1.drop_last();
    assert(p0.len() == 0);
    assert(draw_all(before, p0) == before);
    assert(erases(before.size, clear_rectangle(before.size)));
    assert(draw_all(before, p1).drawn =~= p1);
    assert(draw_all(before, p2).drawn =~= p2);
    assert(draw_all(before, p3).drawn =~= p3);
    assert(draw_all(before, p4).drawn =~= p4);
    assert(draw_all(before, p4).shown == before.shown);
    assert(draw_all(before, p4).size == before.size);
}

} // verus!
