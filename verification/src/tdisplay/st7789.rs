//! Commands of the ST7789 display controller.
use crate::tdisplay::{LCD_H_RES, LCD_V_RES, PIXEL_COUNT, ROW_OFFSET};
use vstd::prelude::*;

verus! {

/// Sleep out.
pub const SLPOUT: u8 = 0x11;

/// Normal display mode.
pub const NORON: u8 = 0x13;

/// Inverted colours.
pub const INVON: u8 = 0x21;

/// Display on.
pub const DISPON: u8 = 0x29;

/// Column range of the following pixels.
pub const CASET: u8 = 0x2A;

/// Row range of the following pixels.
pub const RASET: u8 = 0x2B;

/// First pixels of the range.
pub const RAMWR: u8 = 0x2C;

/// Memory access order.
pub const MADCTL: u8 = 0x36;

/// Pixel format.
pub const COLMOD: u8 = 0x3A;

/// More pixels of the range.
pub const WRMEMC: u8 = 0x3C;

/// One step of the start-up of the controller.
#[derive(Debug, PartialEq, Eq)]
pub enum InitStep {
    /// Send a command with its parameters.
    Send { cmd: u8, data: Vec<u8> },
    /// Wait.
    Delay { millis: u32 },
}

/// A start-up step as contracts speak of it.
#[verifier::ext_equal]
pub enum InitStepView {
    Send { cmd: u8, data: Seq<u8> },
    Delay { millis: u32 },
}

impl View for InitStep {
    type V = InitStepView;

    open spec fn view(&self) -> InitStepView {
        match self {
            InitStep::Send { cmd, data } => InitStepView::Send { cmd: *cmd, data: data@ },
            InitStep::Delay { millis } => InitStepView::Delay { millis: *millis },
        }
    }
}

/// The start-up of the controller for this panel.
pub open spec fn init_sequence() -> Seq<InitStepView> {
    seq![
        InitStepView::Send { cmd: SLPOUT, data: seq![] },
        InitStepView::Delay { millis: 120 },
        InitStepView::Send { cmd: COLMOD, data: seq![0x05u8] },
        InitStepView::Send { cmd: 0xB2, data: seq![0x0Bu8, 0x0B, 0x00, 0x33, 0x33] },
        InitStepView::Send { cmd: 0xB7, data: seq![0x75u8] },
        InitStepView::Send { cmd: 0xBB, data: seq![0x28u8] },
        InitStepView::Send { cmd: 0xC0, data: seq![0x2Cu8] },
        InitStepView::Send { cmd: 0xC2, data: seq![0x01u8] },
        InitStepView::Send { cmd: 0xC3, data: seq![0x1Fu8] },
        InitStepView::Send { cmd: 0xC6, data: seq![0x13u8] },
        InitStepView::Send { cmd: 0xD0, data: seq![0xA7u8] },
        InitStepView::Send { cmd: 0xD0, data: seq![0xA4u8, 0xA1] },
        InitStepView::Send { cmd: 0xD6, data: seq![0xA1u8] },
        InitStepView::Send { cmd: 0xE0, data: gamma_positive() },
        InitStepView::Send { cmd: 0xE1, data: gamma_negative() },
        InitStepView::Send { cmd: INVON, data: seq![] },
        InitStepView::Send { cmd: NORON, data: seq![] },
        InitStepView::Send { cmd: MADCTL, data: seq![0x60u8] },
        InitStepView::Send { cmd: DISPON, data: seq![] },
        InitStepView::Delay { millis: 120 },
    ]
}

/// The gamma curve for positive voltages.
pub open spec fn gamma_positive() -> Seq<u8> {
    seq![
        0xF0u8,
        0x05,
        0x0A,
        0x06,
        0x06,
        0x03,
        0x2B,
        0x32,
        0x43,
        0x36,
        0x11,
        0x10,
        0x2B,
        0x32,
    ]
}

/// The gamma curve for negative voltages.
pub open spec fn gamma_negative() -> Seq<u8> {
    seq![
        0xF0u8,
        0x08,
        0x0C,
        0x0B,
        0x09,
        0x24,
        0x2B,
        0x22,
        0x43,
        0x38,
        0x15,
        0x16,
        0x2F,
        0x37,
    ]
}

/// The steps as contracts speak of them.
pub open spec fn views(steps: Seq<InitStep>) -> Seq<InitStepView> {
    steps.map_values(|step: InitStep| step@)
}

fn push_send(steps: &mut Vec<InitStep>, cmd: u8, data: Vec<u8>)
    ensures
        views(final(steps)@) == views(old(steps)@).push(InitStepView::Send { cmd, data: data@ }),
{
    let ghost before = steps@;
    steps.push(InitStep::Send { cmd, data });
    assert(views(steps@) == views(before).push(InitStepView::Send { cmd, data: data@ }));
}

fn push_delay(steps: &mut Vec<InitStep>, millis: u32)
    ensures
        views(final(steps)@) == views(old(steps)@).push(InitStepView::Delay { millis }),
{
    let ghost before = steps@;
    steps.push(InitStep::Delay { millis });
    assert(views(steps@) == views(before).push(InitStepView::Delay { millis }));
}

/// What is sent to the controller at start-up, and when to wait: it wakes up, takes
/// sixteen-bit pixels, the voltages and gamma curves of the panel, inverted colours
/// and landscape, and is switched on. It gets 120 ms after it wakes up and 120 ms
/// after it is switched on.
pub fn init_st7789() -> (steps: Vec<InitStep>)
    ensures
        views(steps@) == init_sequence(),
        steps@.len() == 20,
        steps@[0]@ == (InitStepView::Send { cmd: SLPOUT, data: seq![] }),
        steps@[1]@ == (InitStepView::Delay { millis: 120 }),
        steps@[18]@ == (InitStepView::Send { cmd: DISPON, data: seq![] }),
        steps@[19]@ == (InitStepView::Delay { millis: 120 }),
{
    let mut steps: Vec<InitStep> = Vec::new();
    push_send(&mut steps, SLPOUT, vec![]);
    push_delay(&mut steps, 120);
    push_send(&mut steps, COLMOD, vec![0x05]);
    push_send(&mut steps, 0xB2, vec![0x0B, 0x0B, 0x00, 0x33, 0x33]);
    push_send(&mut steps, 0xB7, vec![0x75]);
    push_send(&mut steps, 0xBB, vec![0x28]);
    push_send(&mut steps, 0xC0, vec![0x2C]);
    push_send(&mut steps, 0xC2, vec![0x01]);
    push_send(&mut steps, 0xC3, vec![0x1F]);
    push_send(&mut steps, 0xC6, vec![0x13]);
    push_send(&mut steps, 0xD0, vec![0xA7]);
    push_send(&mut steps, 0xD0, vec![0xA4, 0xA1]);
    push_send(&mut steps, 0xD6, vec![0xA1]);
    push_send(
        &mut steps,
        0xE0,
        vec![
            0xF0, 0x05, 0x0A, 0x06, 0x06, 0x03, 0x2B, 0x32, 0x43, 0x36, 0x11, 0x10, 0x2B, 0x32,
        ],
    );
    push_send(
        &mut steps,
        0xE1,
        vec![
            0xF0, 0x08, 0x0C, 0x0B, 0x09, 0x24, 0x2B, 0x22, 0x43, 0x38, 0x15, 0x16, 0x2F, 0x37,
        ],
    );
    push_send(&mut steps, INVON, vec![]);
    push_send(&mut steps, NORON, vec![]);
    push_send(&mut steps, MADCTL, vec![0x60]);
    push_send(&mut steps, DISPON, vec![]);
    push_delay(&mut steps, 120);
    assert(views(steps@) =~~= init_sequence());
    assert(forall|i: int| 0 <= i < steps@.len() ==> steps@[i]@ == #[trigger] views(steps@)[i]);
    steps
}

/// Every command of the start-up fits a buffer of the bus that holds fourteen
/// bytes, and so the one that the board has.
pub proof fn law_init_fits_buffer(i: int)
    requires
        0 <= i < init_sequence().len(),
    ensures
        init_sequence()[i] matches InitStepView::Send { data, .. } ==> data.len() <= 14
            && data.len() <= crate::tdisplay::DMA_BUFFER_LEN,
{
}

/// A command with the two ends of a range as parameters.
#[derive(Clone, Copy, Debug, PartialEq, Eq)]
pub struct RangeCommand {
    pub cmd: u8,
    pub data: [u8; 4],
}

/// The parameters for the range from `start` to `end`, both included: two numbers
/// of sixteen bits, high byte first.
pub open spec fn range_bytes(start: int, end: int) -> Seq<u8> {
    seq![(start / 256) as u8, (start % 256) as u8, (end / 256) as u8, (end % 256) as u8]
}

/// The number of sixteen bits whose high byte is `high` and whose low byte is `low`.
pub open spec fn word(high: u8, low: u8) -> int {
    high * 256 + low
}

/// The high and the low byte of a number.
pub fn split_word(x: u16) -> (bytes: (u8, u8))
    ensures
        bytes.0 == x / 256,
        bytes.1 == x % 256,
        word(bytes.0, bytes.1) == x,
        bytes.0 * 256 + bytes.1 == x,
{
    assert((x >> 8) as u8 == x / 256) by (bit_vector);
    assert((x & 0xFF) as u8 == x % 256) by (bit_vector);
    ((x >> 8) as u8, (x & 0xFF) as u8)
}

/// The two commands that direct the following pixels to the whole panel: its
/// columns, and its rows in the controller's memory. The window has as many pixels
/// as the panel and lies inside that memory, 320 columns by 240 rows in landscape.
pub fn window_commands() -> (commands: (RangeCommand, RangeCommand))
    ensures
        commands.0.cmd == CASET,
        commands.0.data@ == range_bytes(0, LCD_H_RES - 1),
        commands.1.cmd == RASET,
        commands.1.data@ == range_bytes(ROW_OFFSET as int, ROW_OFFSET + LCD_V_RES - 1),
        commands.0.cmd == 0x2A,
        commands.0.data@ == seq![0u8, 0, 1, 63],
        commands.1.cmd == 0x2B,
        commands.1.data@ == seq![0u8, 35, 0, 204],
        ({
            let left = word(commands.0.data@[0], commands.0.data@[1]);
            let right = word(commands.0.data@[2], commands.0.data@[3]);
            let top = word(commands.1.data@[0], commands.1.data@[1]);
            let bottom = word(commands.1.data@[2], commands.1.data@[3]);
            &&& 0 <= left <= right < 320
            &&& 0 <= top <= bottom < 240
            &&& (right - left + 1) * (bottom - top + 1) == PIXEL_COUNT
        }),
{
    let x_end: u16 = LCD_H_RES - 1;
    let y_start: u16 = ROW_OFFSET;
    let y_end: u16 = ROW_OFFSET + LCD_V_RES - 1;
    let (x_high, x_low) = split_word(x_end);
    let columns = RangeCommand { cmd: CASET, data: [0x00, 0x00, x_high, x_low] };
    let rows = RangeCommand { cmd: RASET, data: [0x00, y_start as u8, 0x00, y_end as u8] };
    assert(columns.data@ == range_bytes(0, LCD_H_RES - 1));
    assert(rows.data@ == range_bytes(ROW_OFFSET as int, ROW_OFFSET + LCD_V_RES - 1));
    proof {
        law_range_bytes_keep_ends(0, LCD_H_RES - 1);
        law_range_bytes_keep_ends(ROW_OFFSET as int, ROW_OFFSET + LCD_V_RES - 1);
        let width = word(columns.data@[2], columns.data@[3]) - word(
            columns.data@[0],
            columns.data@[1],
        ) + 1;
        let height = word(rows.data@[2], rows.data@[3]) - word(rows.data@[0], rows.data@[1]) + 1;
        assert(width * height == PIXEL_COUNT) by (nonlinear_arith)
            requires
                width == 320,
                height == 170,
        ;
    }
    (columns, rows)
}

/// The ends of a range can be read back from the parameters of its command.
pub proof fn law_range_bytes_keep_ends(start: int, end: int)
    requires
        0 <= start < 0x1_0000,
        0 <= end < 0x1_0000,
    ensures
        range_bytes(start, end).len() == 4,
        word(range_bytes(start, end)[0], range_bytes(start, end)[1]) == start,
        word(range_bytes(start, end)[2], range_bytes(start, end)[3]) == end,
        range_bytes(start, end)[0] * 256 + range_bytes(start, end)[1] == start,
        range_bytes(start, end)[2] * 256 + range_bytes(start, end)[3] == end,
{
}

} // verus!
