//! A controller session: owns the transport and the settings last applied,
//! and turns each operation into the timed sequence of frames the
//! controller needs.

use vstd::prelude::*;
use vstd::string::StringSliceAdditionalSpecFns;
use crate::bus::{Event, Transport};
use crate::commands::{
    DisplayConfig, DisplayFlag, EntryModeSettings, ExtendedFunctionSet, ViewMode, ADDR_DDRAM,
    ADDR_DDRAM_TOP_OFFSET, CMD_8BIT_4LINES_RE0_IS0, CMD_8BIT_4LINES_RE0_IS0_DH1,
    CMD_8BIT_4LINES_RE0_IS1, CMD_8BIT_4LINES_RE1_IS0, CMD_BS0_1, CMD_BS1_1, CMD_CLEAR_DISPLAY,
    CMD_CONTRAST_DEFAULT_DOGS164, CMD_DISPLAY, CMD_FOLLOWER_CONTROL_DOGS164,
    CMD_POWER_CONTROL_DOGS164, CMD_RETURN_HOME, MODE_COMMAND, MODE_DATA,
};
use crate::config::Config;
use crate::frame::DataFrame;

verus! {

/// Longest run of display bytes that fits in one data frame.
pub const MAX_DATA_LEN: usize = 31;

/// Columns on a line.
pub const COLUMNS: u8 = 16;

/// Lines on the display.
pub const ROWS: u8 = 4;

/// Errors of a session: the bus failed, or an argument was out of range.
#[derive(Debug)]
pub enum LcdError<E> {
    I2c(E),
    InvalidInputData,
}

impl<E> From<E> for LcdError<E> {
    fn from(err: E) -> (r: Self)
        ensures
            r == LcdError::I2c(err),
    {
        LcdError::I2c(err)
    }
}

impl<E> vstd::std_specs::convert::FromSpecImpl<E> for LcdError<E> {
    open spec fn obeys_from_spec() -> bool {
        true
    }

    open spec fn from_spec(err: E) -> Self {
        LcdError::I2c(err)
    }
}

/// Writing the frame that carries one command byte.
pub open spec fn cmd_frame(address: u8, c: u8) -> Event {
    Event::Sent(address, seq![MODE_COMMAND, c])
}

/// One command frame per byte of `cmds`, in order.
pub open spec fn cmd_frames(address: u8, cmds: Seq<u8>) -> Seq<Event> {
    cmds.map_values(|c: u8| cmd_frame(address, c))
}

/// Writing the frame that carries `data` as display data.
pub open spec fn data_frame(address: u8, data: Seq<u8>) -> Event {
    Event::Sent(address, seq![MODE_DATA] + data)
}

/// `n` frames that each write one space.
pub open spec fn blank_frames(address: u8, n: nat) -> Seq<Event> {
    Seq::new(n, |i: int| data_frame(address, seq![0x20u8]))
}

/// The failed attempt at a write.
pub open spec fn failed(e: Event) -> Event {
    match e {
        Event::Sent(address, bytes) => Event::Failed(address, bytes),
        _ => e,
    }
}

/// `log` is `before`, then the first `k` events of `planned`, then the
/// failed attempt at the write that comes next in `planned`: the
/// operation stopped at that failure and did nothing after it.
pub open spec fn cut_short(log: Seq<Event>, before: Seq<Event>, planned: Seq<Event>) -> bool {
    exists|k: int|
        0 <= k < planned.len() && planned[k] is Sent && log == before + #[trigger] planned.take(
            k,
        ).push(failed(planned[k]))
}

/// Moving to (`row`, `col`), writing `n` spaces and moving back there.
pub open spec fn blank_run_frames(address: u8, mode: ViewMode, row: u8, col: u8, n: nat) -> Seq<
    Event,
> {
    seq![cmd_frame(address, locate_cmd(mode, row, col))] + blank_frames(address, n) + seq![
        cmd_frame(address, locate_cmd(mode, row, col)),
    ]
}

/// DDRAM base address of a view mode.
pub open spec fn ddram_base(mode: ViewMode) -> u8 {
    match mode {
        ViewMode::Top => 0x84,
        ViewMode::Bottom => 0x80,
    }
}

/// DDRAM offset of the first column of a line, 1-based.
pub open spec fn row_base(row: u8) -> u8 {
    if row == 1 {
        0x00
    } else if row == 2 {
        0x20
    } else if row == 3 {
        0x40
    } else {
        0x60
    }
}

/// A 1-based position on the 4 x 16 display.
pub open spec fn valid_position(row: u8, col: u8) -> bool {
    1 <= row <= ROWS && 1 <= col <= COLUMNS
}

/// The set-DDRAM-address instruction for a position.
pub open spec fn locate_cmd(mode: ViewMode, row: u8, col: u8) -> u8 {
    (ddram_base(mode) + row_base(row) + (col - 1)) as u8
}

/// The display control instruction for a set of flags.
pub open spec fn display_cmd(flags: DisplayConfig) -> u8 {
    CMD_DISPLAY | flags.spec_bits()
}

/// The extended function set instruction for a configuration.
pub open spec fn extended_cmd(c: Config) -> u8 {
    (ExtendedFunctionSet {
        font_width: c.font_width,
        bw_inversion: c.bw_inversion,
        four_line_enabled: c.four_line_enabled,
    }).spec_cmd()
}

/// The commands that select a double-height layout, none when unset.
pub open spec fn double_height_cmds(c: Config) -> Seq<u8> {
    match c.double_height {
        Some(dh) => seq![CMD_8BIT_4LINES_RE1_IS0, dh.spec_cmd(), CMD_8BIT_4LINES_RE0_IS0_DH1],
        None => Seq::empty(),
    }
}

/// The bias setting: BS1 in the RE = 1 table, then BS0 in the IS = 1 table.
pub open spec fn bias_cmds(c: Config) -> Seq<u8> {
    let ds = c.display_settings;
    seq![ds.spec_re1_is0(), CMD_BS1_1, ds.spec_re0_is1(), CMD_BS0_1]
}

/// The steps of initialisation with `c`, each with the commands it sends:
/// entry mode, view mode, double height, extended function set, bias, the
/// IS = 1 function set, follower control, power control, contrast, display
/// flags, cursor to line 1 column 1, clear.
pub open spec fn init_steps(c: Config) -> Seq<Seq<u8>> {
    let ds = c.display_settings;
    seq![
        seq![ds.spec_re0_is0(), c.entry_mode.spec_cmd()],
        seq![ds.spec_re1_is0(), c.view_mode.spec_cmd()],
        double_height_cmds(c),
        seq![ds.spec_re1_is0(), extended_cmd(c)],
        bias_cmds(c),
        seq![ds.spec_re0_is1()],
        seq![CMD_FOLLOWER_CONTROL_DOGS164],
        seq![CMD_POWER_CONTROL_DOGS164],
        seq![CMD_CONTRAST_DEFAULT_DOGS164],
        seq![ds.spec_re0_is0(), display_cmd(c.display_control)],
        seq![ddram_base(c.view_mode)],
        seq![CMD_CLEAR_DISPLAY],
    ]
}

/// The pause before step `j` of initialisation: 15 ms before the first,
/// 100 ms before each later one.
pub open spec fn init_pause(j: int) -> u32 {
    if j == 0 {
        15
    } else {
        100
    }
}

/// Initialisation with `c`, step by step: each step is its pause followed
/// by its commands.
pub open spec fn init_plan(address: u8, c: Config) -> Seq<Seq<Event>> {
    Seq::new(
        12,
        |j: int| seq![Event::Pause(init_pause(j))] + cmd_frames(address, init_steps(c)[j]),
    )
}

/// Everything initialisation with `c` does, in order.
pub open spec fn init_events(address: u8, c: Config) -> Seq<Event> {
    init_plan(address, c).flatten()
}

/// The fixed bring-up sequence of a DOGS164 module.
pub open spec fn setup_cmds() -> Seq<u8> {
    seq![
        CMD_8BIT_4LINES_RE0_IS0,
        0x06u8,
        CMD_8BIT_4LINES_RE1_IS0,
        0x09u8,
        0x05u8,
        CMD_BS1_1,
        CMD_8BIT_4LINES_RE0_IS1,
        CMD_BS0_1,
        CMD_FOLLOWER_CONTROL_DOGS164,
        CMD_POWER_CONTROL_DOGS164,
        CMD_CONTRAST_DEFAULT_DOGS164,
        CMD_8BIT_4LINES_RE0_IS0,
        CMD_DISPLAY | 0x07u8,
        CMD_8BIT_4LINES_RE0_IS0,
    ]
}

/// Everything `setup` does: the bring-up sequence, a 100 ms pause, clear.
pub open spec fn setup_events(address: u8) -> Seq<Event> {
    cmd_frames(address, setup_cmds()) + seq![
        Event::Pause(100),
        cmd_frame(address, CMD_CLEAR_DISPLAY),
    ]
}

/// On the display, the set-DDRAM-address instruction is exactly the view's
/// base (0x84 for the top view, 0x80 for the bottom view) plus the line's
/// offset (0x00, 0x20, 0x40, 0x60) plus the 0-based column: the sum never
/// leaves the byte range.
pub proof fn lemma_locate_cmd_exact(mode: ViewMode, row: u8, col: u8)
    requires
        valid_position(row, col),
    ensures
        locate_cmd(mode, row, col) as int == ddram_base(mode) as int + row_base(row) as int + col as int
            - 1,
        locate_cmd(mode, row, col) as int == (if mode == ViewMode::Top {
            0x84int
        } else {
            0x80int
        }) + (if row == 1 {
            0x00int
        } else if row == 2 {
            0x20int
        } else if row == 3 {
            0x40int
        } else {
            0x60int
        }) + col - 1,
{
}

proof fn lemma_append_cmds(address: u8, before: Seq<Event>, done: Seq<u8>, more: Seq<u8>)
    ensures
        (before + cmd_frames(address, done)) + cmd_frames(address, more) == before + cmd_frames(
            address,
            done + more,
        ),
{
    assert((before + cmd_frames(address, done)) + cmd_frames(address, more) =~= before
        + cmd_frames(address, done + more));
}

/// The first event of `planned` is a write, and it failed.
proof fn lemma_cut_first(before: Seq<Event>, planned: Seq<Event>)
    requires
        planned.len() > 0,
        planned[0] is Sent,
    ensures
        cut_short(before.push(failed(planned[0])), before, planned),
{
    assert(before.push(failed(planned[0])) =~= before + planned.take(0).push(failed(planned[0])));
}

/// `done` went out in full and then `seg` was cut short: the plan
/// `done + seg + rest` was cut short.
proof fn lemma_cut_extend(
    log: Seq<Event>,
    before: Seq<Event>,
    done: Seq<Event>,
    seg: Seq<Event>,
    rest: Seq<Event>,
)
    requires
        cut_short(log, before + done, seg),
    ensures
        cut_short(log, before, done + seg + rest),
{
    let k = choose|k: int|
        0 <= k < seg.len() && seg[k] is Sent && log == (before + done) + #[trigger] seg.take(
            k,
        ).push(failed(seg[k]));
    let all = done + seg + rest;
    assert(all[done.len() + k] == seg[k]);
    assert(all.take(done.len() + k) =~= done + seg.take(k));
    assert(log =~= before + all.take(done.len() + k).push(failed(all[done.len() + k])));
}

/// The write of `cmds[i]` failed after the commands before it went out.
proof fn lemma_cut_cmds(address: u8, log: Seq<Event>, before: Seq<Event>, cmds: Seq<u8>, i: int)
    requires
        0 <= i < cmds.len(),
        log == (before + cmd_frames(address, cmds.take(i))).push(
            failed(cmd_frame(address, cmds[i])),
        ),
    ensures
        cut_short(log, before, cmd_frames(address, cmds)),
{
    let planned = cmd_frames(address, cmds);
    assert(planned.take(i) =~= cmd_frames(address, cmds.take(i)));
    assert(log =~= before + planned.take(i).push(failed(planned[i])));
}

/// Step `j` of a plan is a pause and then `seg`. The pause went out after
/// the steps before it; then `seg` either went out in full or was cut
/// short, and so was the step and the plan.
proof fn lemma_step(
    log: Seq<Event>,
    mid: Seq<Event>,
    before: Seq<Event>,
    plan: Seq<Seq<Event>>,
    j: int,
    pause: Event,
    seg: Seq<Event>,
    ok: bool,
)
    requires
        0 <= j < plan.len(),
        plan[j] == seq![pause] + seg,
        mid == (before + plan.take(j).flatten()).push(pause),
        ok ==> log == mid + seg,
        !ok ==> cut_short(log, mid, seg),
    ensures
        ok ==> log == before + plan.take(j + 1).flatten(),
        !ok ==> cut_short(log, before, plan.flatten()),
{
    let done = plan.take(j).flatten();
    assert(plan.take(j + 1) =~= plan.take(j).push(plan[j]));
    plan.take(j).lemma_flatten_push(plan[j]);
    if ok {
        assert(log =~= before + plan.take(j + 1).flatten());
    } else {
        assert(mid =~= (before + done) + seq![pause]);
        lemma_cut_extend(log, before + done, seq![pause], seg, Seq::empty());
        assert(seq![pause] + seg + Seq::<Event>::empty() =~= plan[j]);
        assert(plan =~= plan.take(j + 1) + plan.skip(j + 1));
        vstd::seq_lib::lemma_flatten_concat(plan.take(j + 1), plan.skip(j + 1));
        lemma_cut_extend(log, before, done, plan[j], plan.skip(j + 1).flatten());
    }
}

/// A command sent on its own is the plan of one frame.
proof fn lemma_one_cmd(address: u8, c: u8)
    ensures
        cmd_frames(address, seq![c]) == seq![cmd_frame(address, c)],
{
    assert(cmd_frames(address, seq![c]) =~= seq![cmd_frame(address, c)]);
}

/// A session with one controller at a 7-bit bus address.
pub struct SSD18030<T: Transport> {
    port: T,
    address: u8,
    config: Config,
}

impl<T: Transport> SSD18030<T> {
    /// Everything the transport has done, oldest first.
    pub closed spec fn events(&self) -> Seq<Event> {
        self.port.events()
    }

    /// The 7-bit bus address of the controller.
    pub closed spec fn address(&self) -> u8 {
        self.address
    }

    /// The settings last applied.
    pub closed spec fn config(&self) -> Config {
        self.config
    }

    /// On the same address and with the same settings as `before`.
    pub open spec fn keeps(&self, before: &Self) -> bool {
        &&& self.address() == before.address()
        &&& self.config() == before.config()
    }

    /// A session with the default settings; nothing is sent.
    pub fn new_i2c(port: T, address: u8) -> (r: Self)
        ensures
            r.events() == port.events(),
            r.address() == address,
            r.config().is_default(),
    {
        SSD18030 { port, address, config: Config::default() }
    }

    /// Ends the session and hands back the transport.
    pub fn release(self) -> (r: T)
        ensures
            r.events() == self.events(),
    {
        self.port
    }

    /// Sends one command byte.
    pub fn send_command(&mut self, command: u8) -> (r: Result<(), T::Error>)
        ensures
            final(self).keeps(old(self)),
            r is Ok ==> final(self).events() == old(self).events().push(
                cmd_frame(old(self).address(), command),
            ),
            r is Err ==> final(self).events() == old(self).events().push(
                failed(cmd_frame(old(self).address(), command)),
            ),
    {
        let bytes = [MODE_COMMAND, command];
        assert(bytes@ =~= seq![MODE_COMMAND, command]);
        self.port.write(self.address, bytes.as_slice())
    }

    /// Sends one byte of display data.
    pub fn send_data_byte(&mut self, data: u8) -> (r: Result<(), T::Error>)
        ensures
            final(self).keeps(old(self)),
            r is Ok ==> final(self).events() == old(self).events().push(
                data_frame(old(self).address(), seq![data]),
            ),
            r is Err ==> final(self).events() == old(self).events().push(
                failed(data_frame(old(self).address(), seq![data])),
            ),
    {
        let bytes = [MODE_DATA, data];
        assert(bytes@ =~= seq![MODE_DATA] + seq![data]);
        self.port.write(self.address, bytes.as_slice())
    }

    /// Sends up to 31 bytes of display data in one frame; longer input is
    /// refused before anything is sent.
    pub fn send_data(&mut self, data: &[u8]) -> (r: Result<(), LcdError<T::Error>>)
        ensures
            final(self).keeps(old(self)),
            (r matches Err(LcdError::InvalidInputData)) <==> data@.len() > MAX_DATA_LEN,
            data@.len() > MAX_DATA_LEN ==> final(self).events() == old(self).events(),
            r is Ok ==> final(self).events() == old(self).events().push(
                data_frame(old(self).address(), data@),
            ),
            (r matches Err(LcdError::I2c(_))) ==> final(self).events() == old(self).events().push(
                failed(data_frame(old(self).address(), data@)),
            ),
    {
        if data.len() > MAX_DATA_LEN {
            return Err(LcdError::InvalidInputData);
        }
        let frame = DataFrame::new(MODE_DATA, data);
        match self.port.write(self.address, frame.as_slice()) {
            Ok(()) => Ok(()),
            Err(e) => Err(LcdError::I2c(e)),
        }
    }

    /// Clears the display; the controller moves its cursor home.
    pub fn clear(&mut self) -> (r: Result<(), LcdError<T::Error>>)
        ensures
            final(self).keeps(old(self)),
            r is Ok ==> final(self).events() == old(self).events().push(
                cmd_frame(old(self).address(), CMD_CLEAR_DISPLAY),
            ),
            r is Err ==> final(self).events() == old(self).events().push(
                failed(cmd_frame(old(self).address(), CMD_CLEAR_DISPLAY)),
            ),
            !(r matches Err(LcdError::InvalidInputData)),
    {
        self.issue(CMD_CLEAR_DISPLAY)
    }

    /// Moves the cursor home.
    pub fn home(&mut self) -> (r: Result<(), LcdError<T::Error>>)
        ensures
            final(self).keeps(old(self)),
            r is Ok ==> final(self).events() == old(self).events().push(
                cmd_frame(old(self).address(), CMD_RETURN_HOME),
            ),
            r is Err ==> final(self).events() == old(self).events().push(
                failed(cmd_frame(old(self).address(), CMD_RETURN_HOME)),
            ),
            !(r matches Err(LcdError::InvalidInputData)),
    {
        self.issue(CMD_RETURN_HOME)
    }

    /// Moves the cursor to `row` (1 to 4) and `col` (1 to 16). A position
    /// off the display is refused before anything is sent.
    pub fn locate(&mut self, row: u8, col: u8) -> (r: Result<(), LcdError<T::Error>>)
        ensures
            final(self).keeps(old(self)),
            (r matches Err(LcdError::InvalidInputData)) <==> !valid_position(row, col),
            !valid_position(row, col) ==> final(self).events() == old(self).events(),
            r is Ok ==> final(self).events() == old(self).events().push(
                cmd_frame(old(self).address(), locate_cmd(old(self).config().view_mode, row, col)),
            ),
            (r matches Err(LcdError::I2c(_))) ==> final(self).events() == old(self).events().push(
                failed(
                    cmd_frame(
                        old(self).address(),
                        locate_cmd(old(self).config().view_mode, row, col),
                    ),
                ),
            ),
    {
        if col > COLUMNS || col == 0 || row == 0 || row > ROWS {
            return Err(LcdError::InvalidInputData);
        }
        let col = col - 1;
        let addr: u8 = if row == 1 {
            col
        } else if row == 2 {
            0x20 + col
        } else if row == 3 {
            0x40 + col
        } else {
            0x60 + col
        };
        let start: u8 = if self.config.view_mode == ViewMode::Top {
            ADDR_DDRAM + ADDR_DDRAM_TOP_OFFSET
        } else {
            ADDR_DDRAM
        };
        self.issue(start + addr)
    }

    /// Writes the bytes of `s` at the cursor in one frame: at most 31 bytes,
    /// longer text is refused before anything is sent.
    pub fn write(&mut self, s: &str) -> (r: Result<(), LcdError<T::Error>>)
        ensures
            final(self).keeps(old(self)),
            (r matches Err(LcdError::InvalidInputData)) <==> s.spec_bytes().len() > MAX_DATA_LEN,
            s.spec_bytes().len() > MAX_DATA_LEN ==> final(self).events() == old(self).events(),
            r is Ok ==> final(self).events() == old(self).events().push(
                data_frame(old(self).address(), s.spec_bytes()),
            ),
            (r matches Err(LcdError::I2c(_))) ==> final(self).events() == old(self).events().push(
                failed(data_frame(old(self).address(), s.spec_bytes())),
            ),
    {
        self.send_data(s.as_bytes())
    }

    /// Sets display, cursor and blink from `flags`, in the RE = 0, IS = 0
    /// table, and remembers them.
    pub fn set_display(&mut self, flags: DisplayConfig) -> (r: Result<(), LcdError<T::Error>>)
        ensures
            final(self).address() == old(self).address(),
            final(self).config() == (Config { display_control: flags, ..old(self).config() }),
            r is Ok ==> final(self).events() == old(self).events() + cmd_frames(
                old(self).address(),
                seq![old(self).config().display_settings.spec_re0_is0(), display_cmd(flags)],
            ),
            r is Err ==> cut_short(
                final(self).events(),
                old(self).events(),
                cmd_frames(
                    old(self).address(),
                    seq![old(self).config().display_settings.spec_re0_is0(), display_cmd(flags)],
                ),
            ),
            !(r matches Err(LcdError::InvalidInputData)),
    {
        self.config.display_control = flags;
        let cmds = [self.config.display_settings.cmd_re0_is0(), CMD_DISPLAY | flags.bits()];
        assert(cmds@ =~= seq![cmds[0], cmds[1]]);
        self.send_commands(cmds.as_slice())
    }

    /// Sets the entry mode, in the RE = 0, IS = 0 table, and remembers it.
    pub fn set_entry_mode(&mut self, mode: EntryModeSettings) -> (r: Result<(), LcdError<T::Error>>)
        ensures
            final(self).address() == old(self).address(),
            final(self).config() == (Config { entry_mode: mode, ..old(self).config() }),
            r is Ok ==> final(self).events() == old(self).events() + cmd_frames(
                old(self).address(),
                seq![old(self).config().display_settings.spec_re0_is0(), mode.spec_cmd()],
            ),
            r is Err ==> cut_short(
                final(self).events(),
                old(self).events(),
                cmd_frames(
                    old(self).address(),
                    seq![old(self).config().display_settings.spec_re0_is0(), mode.spec_cmd()],
                ),
            ),
            !(r matches Err(LcdError::InvalidInputData)),
    {
        self.config.entry_mode = mode;
        let cmds = [self.config.display_settings.cmd_re0_is0(), mode.cmd()];
        assert(cmds@ =~= seq![cmds[0], cmds[1]]);
        self.send_commands(cmds.as_slice())
    }

    /// Sets the view mode, in the RE = 1, IS = 0 table, and remembers it:
    /// the DDRAM base that `locate` uses follows it.
    pub fn set_view_mode(&mut self, mode: ViewMode) -> (r: Result<(), LcdError<T::Error>>)
        ensures
            final(self).address() == old(self).address(),
            final(self).config() == (Config { view_mode: mode, ..old(self).config() }),
            r is Ok ==> final(self).events() == old(self).events() + cmd_frames(
                old(self).address(),
                seq![old(self).config().display_settings.spec_re1_is0(), mode.spec_cmd()],
            ),
            r is Err ==> cut_short(
                final(self).events(),
                old(self).events(),
                cmd_frames(
                    old(self).address(),
                    seq![old(self).config().display_settings.spec_re1_is0(), mode.spec_cmd()],
                ),
            ),
            !(r matches Err(LcdError::InvalidInputData)),
    {
        self.config.view_mode = mode;
        let cmds = [self.config.display_settings.cmd_re1_is0(), mode.cmd()];
        assert(cmds@ =~= seq![cmds[0], cmds[1]]);
        self.send_commands(cmds.as_slice())
    }

    /// Takes the cursor out of the remembered display flags and sends them.
    pub fn set_cursor_off(&mut self) -> (r: Result<(), LcdError<T::Error>>)
        ensures
            final(self).address() == old(self).address(),
            final(self).config() == (Config {
                display_control: DisplayConfig {
                    cursor_on: false,
                    ..old(self).config().display_control
                },
                ..old(self).config()
            }),
            r is Ok ==> final(self).events() == old(self).events().push(
                cmd_frame(old(self).address(), display_cmd(final(self).config().display_control)),
            ),
            r is Err ==> final(self).events() == old(self).events().push(
                failed(
                    cmd_frame(old(self).address(), display_cmd(final(self).config().display_control)),
                ),
            ),
            !(r matches Err(LcdError::InvalidInputData)),
    {
        self.config.display_control.remove(DisplayFlag::CursorOn);
        assert(self.config.display_control.has(DisplayFlag::DisplayOn) == old(
            self,
        ).config.display_control.has(DisplayFlag::DisplayOn));
        assert(!self.config.display_control.has(DisplayFlag::CursorOn));
        assert(self.config.display_control.has(DisplayFlag::BlinkOn) == old(
            self,
        ).config.display_control.has(DisplayFlag::BlinkOn));
        self.issue(CMD_DISPLAY | self.config.display_control.bits())
    }

    /// Takes blinking out of the remembered display flags and sends them.
    pub fn set_blinking_off(&mut self) -> (r: Result<(), LcdError<T::Error>>)
        ensures
            final(self).address() == old(self).address(),
            final(self).config() == (Config {
                display_control: DisplayConfig {
                    blink_on: false,
                    ..old(self).config().display_control
                },
                ..old(self).config()
            }),
            r is Ok ==> final(self).events() == old(self).events().push(
                cmd_frame(old(self).address(), display_cmd(final(self).config().display_control)),
            ),
            r is Err ==> final(self).events() == old(self).events().push(
                failed(
                    cmd_frame(old(self).address(), display_cmd(final(self).config().display_control)),
                ),
            ),
            !(r matches Err(LcdError::InvalidInputData)),
    {
        self.config.display_control.remove(DisplayFlag::BlinkOn);
        assert(self.config.display_control.has(DisplayFlag::DisplayOn) == old(
            self,
        ).config.display_control.has(DisplayFlag::DisplayOn));
        assert(self.config.display_control.has(DisplayFlag::CursorOn) == old(
            self,
        ).config.display_control.has(DisplayFlag::CursorOn));
        assert(!self.config.display_control.has(DisplayFlag::BlinkOn));
        self.issue(CMD_DISPLAY | self.config.display_control.bits())
    }

    /// Sends font width, inversion and four-line mode from the remembered
    /// settings, in the RE = 1, IS = 0 table.
    pub fn extended_function_set(&mut self) -> (r: Result<(), LcdError<T::Error>>)
        ensures
            final(self).keeps(old(self)),
            r is Ok ==> final(self).events() == old(self).events() + cmd_frames(
                old(self).address(),
                seq![
                    old(self).config().display_settings.spec_re1_is0(),
                    extended_cmd(old(self).config()),
                ],
            ),
            r is Err ==> cut_short(
                final(self).events(),
                old(self).events(),
                cmd_frames(
                    old(self).address(),
                    seq![
                        old(self).config().display_settings.spec_re1_is0(),
                        extended_cmd(old(self).config()),
                    ],
                ),
            ),
            !(r matches Err(LcdError::InvalidInputData)),
    {
        let efs = ExtendedFunctionSet::new(
            self.config.font_width,
            self.config.bw_inversion,
            self.config.four_line_enabled,
        );
        let cmds = [self.config.display_settings.cmd_re1_is0(), efs.cmd()];
        assert(cmds@ =~= seq![cmds[0], cmds[1]]);
        self.send_commands(cmds.as_slice())
    }

    /// Selects the remembered double-height layout through the RE = 1 table
    /// and returns to the RE = 0 table with double height on. Sends nothing
    /// when no layout is set.
    pub fn set_double_height(&mut self) -> (r: Result<(), LcdError<T::Error>>)
        ensures
            final(self).keeps(old(self)),
            r is Ok ==> final(self).events() == old(self).events() + cmd_frames(
                old(self).address(),
                double_height_cmds(old(self).config()),
            ),
            r is Err ==> cut_short(
                final(self).events(),
                old(self).events(),
                cmd_frames(old(self).address(), double_height_cmds(old(self).config())),
            ),
            old(self).config().double_height is None ==> (r is Ok),
            old(self).config().double_height is None ==> final(self).events() == old(self).events(),
            !(r matches Err(LcdError::InvalidInputData)),
    {
        match self.config.double_height {
            Some(dh) => {
                let cmds = [CMD_8BIT_4LINES_RE1_IS0, dh.cmd(), CMD_8BIT_4LINES_RE0_IS0_DH1];
                assert(cmds@ =~= seq![cmds[0], cmds[1], cmds[2]]);
                self.send_commands(cmds.as_slice())
            },
            None => {
                assert(old(self).events() + cmd_frames(old(self).address(), Seq::empty())
                    =~= old(self).events());
                Ok(())
            },
        }
    }

    /// Sets BS1 in the RE = 1 table and BS0 in the IS = 1 table.
    fn set_bias(&mut self) -> (r: Result<(), LcdError<T::Error>>)
        ensures
            final(self).keeps(old(self)),
            r is Ok ==> final(self).events() == old(self).events() + cmd_frames(
                old(self).address(),
                bias_cmds(old(self).config()),
            ),
            r is Err ==> cut_short(
                final(self).events(),
                old(self).events(),
                cmd_frames(old(self).address(), bias_cmds(old(self).config())),
            ),
            !(r matches Err(LcdError::InvalidInputData)),
    {
        let ds = self.config.display_settings;
        let cmds = [ds.cmd_re1_is0(), CMD_BS1_1, ds.cmd_re0_is1(), CMD_BS0_1];
        assert(cmds@ =~= bias_cmds(self.config));
        self.send_commands(cmds.as_slice())
    }

    /// Writes `n` spaces, one frame each; stops at the first failed write.
    fn send_blanks(&mut self, n: u8) -> (r: Result<(), LcdError<T::Error>>)
        ensures
            final(self).keeps(old(self)),
            r is Ok ==> final(self).events() == old(self).events() + blank_frames(
                old(self).address(),
                n as nat,
            ),
            r is Err ==> cut_short(
                final(self).events(),
                old(self).events(),
                blank_frames(old(self).address(), n as nat),
            ),
            !(r matches Err(LcdError::InvalidInputData)),
    {
        let ghost a = old(self).address();
        let mut i: u8 = 0;
        while i < n
            invariant
                a == old(self).address(),
                i <= n,
                self.keeps(old(self)),
                self.events() == old(self).events() + blank_frames(a, i as nat),
            decreases n - i,
        {
            assert(seq![MODE_DATA] + seq![0x20u8] =~= seq![MODE_DATA, 0x20u8]);
            match self.send_data_byte(0x20) {
                Ok(()) => {},
                Err(e) => {
                    proof {
                        let planned = blank_frames(a, n as nat);
                        assert(planned.take(i as int) =~= blank_frames(a, i as nat));
                        assert(self.events() =~= old(self).events() + planned.take(i as int).push(
                            failed(planned[i as int]),
                        ));
                    }
                    return Err(LcdError::I2c(e));
                },
            }
            assert(old(self).events() + blank_frames(a, (i + 1) as nat) =~= (old(self).events()
                + blank_frames(a, i as nat)).push(data_frame(a, seq![0x20u8])));
            i = i + 1;
        }
        Ok(())
    }

    /// Blanks line `line` (1 to 4): moves to its first column, writes 16
    /// spaces and moves back to the first column. Any other line is refused
    /// before anything is sent.
    pub fn clear_line(&mut self, line: u8) -> (r: Result<(), LcdError<T::Error>>)
        ensures
            final(self).keeps(old(self)),
            (r matches Err(LcdError::InvalidInputData)) <==> !(1 <= line <= ROWS),
            !(1 <= line <= ROWS) ==> final(self).events() == old(self).events(),
            r is Ok ==> final(self).events() == old(self).events() + blank_run_frames(
                old(self).address(),
                old(self).config().view_mode,
                line,
                1,
                COLUMNS as nat,
            ),
            (r matches Err(LcdError::I2c(_))) ==> cut_short(
                final(self).events(),
                old(self).events(),
                blank_run_frames(
                    old(self).address(),
                    old(self).config().view_mode,
                    line,
                    1,
                    COLUMNS as nat,
                ),
            ),
    {
        if line == 0 || line > ROWS {
            return Err(LcdError::InvalidInputData);
        }
        self.blank_run(line, 1, COLUMNS)
    }

    /// Blanks `chars` cells (1 to 16) from `row_col` = (row, col): moves
    /// there, writes that many spaces and moves back. A position off the
    /// display or a count out of range is refused before anything is sent.
    /// A run past the end of the line is not refused; where it lands is up
    /// to the controller's address wrapping.
    pub fn clear_chars(&mut self, row_col: (u8, u8), chars: u8) -> (r: Result<
        (),
        LcdError<T::Error>,
    >)
        ensures
            final(self).keeps(old(self)),
            (r matches Err(LcdError::InvalidInputData)) <==> !(valid_position(row_col.0, row_col.1)
                && 1 <= chars <= COLUMNS),
            !(valid_position(row_col.0, row_col.1) && 1 <= chars <= COLUMNS) ==> final(self).events()
                == old(self).events(),
            r is Ok ==> final(self).events() == old(self).events() + blank_run_frames(
                old(self).address(),
                old(self).config().view_mode,
                row_col.0,
                row_col.1,
                chars as nat,
            ),
            (r matches Err(LcdError::I2c(_))) ==> cut_short(
                final(self).events(),
                old(self).events(),
                blank_run_frames(
                    old(self).address(),
                    old(self).config().view_mode,
                    row_col.0,
                    row_col.1,
                    chars as nat,
                ),
            ),
    {
        let (row, col) = row_col;
        if col == 0 || col > COLUMNS || row == 0 || row > ROWS || chars == 0 || chars > COLUMNS {
            return Err(LcdError::InvalidInputData);
        }
        self.blank_run(row, col, chars)
    }

    /// Moves to (`row`, `col`), writes `n` spaces and moves back there;
    /// stops at the first failed write.
    fn blank_run(&mut self, row: u8, col: u8, n: u8) -> (r: Result<(), LcdError<T::Error>>)
        requires
            valid_position(row, col),
        ensures
            final(self).keeps(old(self)),
            r is Ok ==> final(self).events() == old(self).events() + blank_run_frames(
                old(self).address(),
                old(self).config().view_mode,
                row,
                col,
                n as nat,
            ),
            r is Err ==> cut_short(
                final(self).events(),
                old(self).events(),
                blank_run_frames(
                    old(self).address(),
                    old(self).config().view_mode,
                    row,
                    col,
                    n as nat,
                ),
            ),
            !(r matches Err(LcdError::InvalidInputData)),
    {
        let ghost a = old(self).address();
        let ghost s0 = old(self).events();
        let ghost loc = seq![cmd_frame(a, locate_cmd(old(self).config().view_mode, row, col))];
        let ghost blanks = blank_frames(a, n as nat);
        match self.locate(row, col) {
            Ok(()) => {},
            Err(e) => {
                proof {
                    lemma_cut_first(s0, loc + blanks + loc);
                }
                return Err(e);
            },
        }
        assert(self.events() =~= s0 + loc);
        match self.send_blanks(n) {
            Ok(()) => {},
            Err(e) => {
                proof {
                    lemma_cut_extend(self.events(), s0, loc, blanks, loc);
                }
                return Err(e);
            },
        }
        match self.locate(row, col) {
            Ok(()) => {},
            Err(e) => {
                proof {
                    assert(s0 + loc + blanks =~= s0 + (loc + blanks));
                    lemma_cut_first(s0 + (loc + blanks), loc);
                    lemma_cut_extend(self.events(), s0, loc + blanks, loc, Seq::empty());
                    assert(loc + blanks + loc + Seq::<Event>::empty() =~= loc + blanks + loc);
                }
                return Err(e);
            },
        }
        assert(self.events() =~= s0 + (loc + blanks + loc));
        Ok(())
    }

    /// Brings up a DOGS164 module with fixed settings (top view, cursor and
    /// blink on), pauses 100 ms and clears the display. The remembered
    /// settings are left as they are.
    pub fn setup(&mut self) -> (r: Result<(), LcdError<T::Error>>)
        ensures
            final(self).keeps(old(self)),
            r is Ok ==> final(self).events() == old(self).events() + setup_events(
                old(self).address(),
            ),
            r is Err ==> cut_short(
                final(self).events(),
                old(self).events(),
                setup_events(old(self).address()),
            ),
            !(r matches Err(LcdError::InvalidInputData)),
    {
        let display_cfg = DisplayConfig::new(true, true, true);
        let cmds = [
            CMD_8BIT_4LINES_RE0_IS0,
            0x06,
            CMD_8BIT_4LINES_RE1_IS0,
            0x09,
            ViewMode::Top.cmd(),
            CMD_BS1_1,
            CMD_8BIT_4LINES_RE0_IS1,
            CMD_BS0_1,
            CMD_FOLLOWER_CONTROL_DOGS164,
            CMD_POWER_CONTROL_DOGS164,
            CMD_CONTRAST_DEFAULT_DOGS164,
            CMD_8BIT_4LINES_RE0_IS0,
            CMD_DISPLAY | display_cfg.bits(),
            CMD_8BIT_4LINES_RE0_IS0,
        ];
        assert((0x04u8 | 0x02u8 | 0x01u8) == 0x07u8) by (bit_vector);
        assert(cmds@ =~= setup_cmds());
        let ghost a = old(self).address();
        let ghost s0 = old(self).events();
        let ghost bring_up = cmd_frames(a, setup_cmds());
        let ghost tail = seq![Event::Pause(100), cmd_frame(a, CMD_CLEAR_DISPLAY)];
        match self.send_commands(cmds.as_slice()) {
            Ok(()) => {},
            Err(e) => {
                proof {
                    assert(s0 + Seq::<Event>::empty() =~= s0);
                    lemma_cut_extend(self.events(), s0, Seq::empty(), bring_up, tail);
                    assert(Seq::<Event>::empty() + bring_up + tail =~= setup_events(a));
                }
                return Err(e);
            },
        }
        self.pause(100);
        match self.clear() {
            Ok(()) => {},
            Err(e) => {
                proof {
                    let pre = (s0 + bring_up).push(Event::Pause(100));
                    lemma_cut_first(pre, seq![cmd_frame(a, CMD_CLEAR_DISPLAY)]);
                    assert(pre =~= (s0 + bring_up) + seq![Event::Pause(100)]);
                    lemma_cut_extend(
                        self.events(),
                        s0 + bring_up,
                        seq![Event::Pause(100)],
                        seq![cmd_frame(a, CMD_CLEAR_DISPLAY)],
                        Seq::empty(),
                    );
                    assert(seq![Event::Pause(100)] + seq![cmd_frame(a, CMD_CLEAR_DISPLAY)]
                        + Seq::<Event>::empty() =~= tail);
                    lemma_cut_extend(self.events(), s0, bring_up, tail, Seq::empty());
                    assert(bring_up + tail + Seq::<Event>::empty() =~= setup_events(a));
                }
                return Err(e);
            },
        }
        assert(self.events() =~= s0 + setup_events(a));
        Ok(())
    }

    /// Takes `config` as the remembered settings and brings the controller
    /// up with it, step by step as `init_plan` lists: each step pauses (15 ms
    /// before the first, 100 ms before the others) and then sends its
    /// commands. Stops at the first bus failure.
    pub fn init(&mut self, config: Config) -> (r: Result<(), LcdError<T::Error>>)
        ensures
            final(self).address() == old(self).address(),
            final(self).config() == config,
            r is Ok ==> final(self).events() == old(self).events() + init_events(
                old(self).address(),
                config,
            ),
            r is Err ==> cut_short(
                final(self).events(),
                old(self).events(),
                init_events(old(self).address(), config),
            ),
            !(r matches Err(LcdError::InvalidInputData)),
    {
        self.config = config;
        let ghost a = old(self).address();
        let ghost s0 = old(self).events();
        let ghost plan = init_plan(a, config);
        let ghost steps = init_steps(config);
        assert(plan.take(0) =~= Seq::<Seq<Event>>::empty());
        assert(s0 + Seq::<Seq<Event>>::empty().flatten() =~= s0);

        self.pause(15);
        let ghost mid = self.events();
        let r = self.set_entry_mode(config.entry_mode);
        proof {
            lemma_step(self.events(), mid, s0, plan, 0, Event::Pause(15), cmd_frames(a, steps[0]), r is Ok);
        }
        r?;

        self.pause(100);
        let ghost mid = self.events();
        let r = self.set_view_mode(config.view_mode);
        proof {
            lemma_step(self.events(), mid, s0, plan, 1, Event::Pause(100), cmd_frames(a, steps[1]), r is Ok);
        }
        r?;

        self.pause(100);
        let ghost mid = self.events();
        let r = self.set_double_height();
        proof {
            lemma_step(self.events(), mid, s0, plan, 2, Event::Pause(100), cmd_frames(a, steps[2]), r is Ok);
        }
        r?;

        self.pause(100);
        let ghost mid = self.events();
        let r = self.extended_function_set();
        proof {
            lemma_step(self.events(), mid, s0, plan, 3, Event::Pause(100), cmd_frames(a, steps[3]), r is Ok);
        }
        r?;

        self.pause(100);
        let ghost mid = self.events();
        let r = self.set_bias();
        proof {
            lemma_step(self.events(), mid, s0, plan, 4, Event::Pause(100), cmd_frames(a, steps[4]), r is Ok);
        }
        r?;

        self.pause(100);
        let ghost mid = self.events();
        let cmds = [self.config.display_settings.cmd_re0_is1()];
        assert(cmds@ =~= seq![cmds[0]]);
        let r = self.send_commands(cmds.as_slice());
        proof {
            lemma_step(self.events(), mid, s0, plan, 5, Event::Pause(100), cmd_frames(a, steps[5]), r is Ok);
        }
        r?;

        self.pause(100);
        let ghost mid = self.events();
        let cmds = [CMD_FOLLOWER_CONTROL_DOGS164];
        assert(cmds@ =~= seq![cmds[0]]);
        let r = self.send_commands(cmds.as_slice());
        proof {
            lemma_step(self.events(), mid, s0, plan, 6, Event::Pause(100), cmd_frames(a, steps[6]), r is Ok);
        }
        r?;

        self.pause(100);
        let ghost mid = self.events();
        let cmds = [CMD_POWER_CONTROL_DOGS164];
        assert(cmds@ =~= seq![cmds[0]]);
        let r = self.send_commands(cmds.as_slice());
        proof {
            lemma_step(self.events(), mid, s0, plan, 7, Event::Pause(100), cmd_frames(a, steps[7]), r is Ok);
        }
        r?;

        self.pause(100);
        let ghost mid = self.events();
        let cmds = [CMD_CONTRAST_DEFAULT_DOGS164];
        assert(cmds@ =~= seq![cmds[0]]);
        let r = self.send_commands(cmds.as_slice());
        proof {
            lemma_step(self.events(), mid, s0, plan, 8, Event::Pause(100), cmd_frames(a, steps[8]), r is Ok);
        }
        r?;

        self.pause(100);
        let ghost mid = self.events();
        let r = self.set_display(config.display_control);
        proof {
            lemma_step(self.events(), mid, s0, plan, 9, Event::Pause(100), cmd_frames(a, steps[9]), r is Ok);
        }
        r?;

        self.pause(100);
        let ghost mid = self.events();
        let r = self.locate(1, 1);
        proof {
            lemma_one_cmd(a, steps[10][0]);
            assert(steps[10] =~= seq![steps[10][0]]);
            assert(mid.push(cmd_frame(a, steps[10][0])) =~= mid + seq![cmd_frame(a, steps[10][0])]);
            if r is Err {
                lemma_cut_first(mid, cmd_frames(a, steps[10]));
            }
            lemma_step(self.events(), mid, s0, plan, 10, Event::Pause(100), cmd_frames(a, steps[10]), r is Ok);
        }
        r?;

        self.pause(100);
        let ghost mid = self.events();
        let r = self.clear();
        proof {
            lemma_one_cmd(a, CMD_CLEAR_DISPLAY);
            assert(mid.push(cmd_frame(a, CMD_CLEAR_DISPLAY)) =~= mid + seq![
                cmd_frame(a, CMD_CLEAR_DISPLAY),
            ]);
            if r is Err {
                lemma_cut_first(mid, cmd_frames(a, steps[11]));
            }
            lemma_step(self.events(), mid, s0, plan, 11, Event::Pause(100), cmd_frames(a, steps[11]), r is Ok);
        }
        r?;
        assert(plan.take(12) =~= plan);
        Ok(())
    }

    /// Sends one command byte, with the bus error wrapped.
    fn issue(&mut self, command: u8) -> (r: Result<(), LcdError<T::Error>>)
        ensures
            final(self).keeps(old(self)),
            r is Ok ==> final(self).events() == old(self).events().push(
                cmd_frame(old(self).address(), command),
            ),
            r is Err ==> final(self).events() == old(self).events().push(
                failed(cmd_frame(old(self).address(), command)),
            ),
            !(r matches Err(LcdError::InvalidInputData)),
    {
        match self.send_command(command) {
            Ok(()) => Ok(()),
            Err(e) => Err(LcdError::I2c(e)),
        }
    }

    /// Blocks for `ms` milliseconds.
    fn pause(&mut self, ms: u32)
        ensures
            final(self).keeps(old(self)),
            final(self).events() == old(self).events().push(Event::Pause(ms)),
    {
        self.port.delay_ms(ms);
    }

    /// Sends each byte of `cmds` as a command, in order, and stops at the
    /// first failure.
    fn send_commands(&mut self, cmds: &[u8]) -> (r: Result<(), LcdError<T::Error>>)
        ensures
            final(self).keeps(old(self)),
            r is Ok ==> final(self).events() == old(self).events() + cmd_frames(
                old(self).address(),
                cmds@,
            ),
            r is Err ==> cut_short(
                final(self).events(),
                old(self).events(),
                cmd_frames(old(self).address(), cmds@),
            ),
            !(r matches Err(LcdError::InvalidInputData)),
    {
        let ghost a = old(self).address();
        let mut i: usize = 0;
        while i < cmds.len()
            invariant
                a == old(self).address(),
                i <= cmds@.len(),
                self.keeps(old(self)),
                self.events() == old(self).events() + cmd_frames(a, cmds@.take(i as int)),
            decreases cmds@.len() - i,
        {
            let c = cmds[i];
            match self.send_command(c) {
                Ok(()) => {},
                Err(e) => {
                    proof {
                        lemma_cut_cmds(a, self.events(), old(self).events(), cmds@, i as int);
                    }
                    return Err(LcdError::I2c(e));
                },
            }
            proof {
                assert(cmds@.take(i + 1) =~= cmds@.take(i as int) + seq![c]);
                lemma_append_cmds(a, old(self).events(), cmds@.take(i as int), seq![c]);
                lemma_one_cmd(a, c);
            }
            i = i + 1;
        }
        assert(cmds@.take(cmds@.len() as int) =~= cmds@);
        Ok(())
    }
}

/// The operation set of a character display, for code that is generic over
/// the display. The contracts stand on the inherent methods of each
/// implementation.
pub trait Lcd {
    type Error;

    fn init(&mut self, config: Config) -> Result<(), Self::Error>;

    /// Clears the display and moves the cursor home.
    fn clear(&mut self) -> Result<(), Self::Error>;

    /// Moves the cursor home.
    fn home(&mut self) -> Result<(), Self::Error>;

    /// Moves the cursor; row and column are 1-based.
    fn locate(&mut self, row: u8, col: u8) -> Result<(), Self::Error>;

    /// Writes text at the cursor.
    fn write(&mut self, s: &str) -> Result<(), Self::Error>;

    /// Sets display on/off, cursor on/off and blink on/off.
    fn set_display(&mut self, flags: DisplayConfig) -> Result<(), Self::Error>;

    /// Sets cursor direction and display shift on write.
    fn set_entry_mode(&mut self, mode: EntryModeSettings) -> Result<(), Self::Error>;

    /// Sets top or bottom view.
    fn set_view_mode(&mut self, mode: ViewMode) -> Result<(), Self::Error>;

    fn set_cursor_off(&mut self) -> Result<(), Self::Error>;

    fn set_blinking_off(&mut self) -> Result<(), Self::Error>;

    fn extended_function_set(&mut self) -> Result<(), Self::Error>;

    fn set_double_height(&mut self) -> Result<(), Self::Error>;

    fn clear_line(&mut self, line: u8) -> Result<(), Self::Error>;

    fn clear_chars(&mut self, row_col: (u8, u8), chars: u8) -> Result<(), Self::Error>;
}

impl<T: Transport> Lcd for SSD18030<T> {
    type Error = LcdError<T::Error>;

    fn init(&mut self, config: Config) -> Result<(), Self::Error> {
        SSD18030::init(self, config)
    }

    fn clear(&mut self) -> Result<(), Self::Error> {
        SSD18030::clear(self)
    }

    fn home(&mut self) -> Result<(), Self::Error> {
        SSD18030::home(self)
    }

    fn locate(&mut self, row: u8, col: u8) -> Result<(), Self::Error> {
        SSD18030::locate(self, row, col)
    }

    fn write(&mut self, s: &str) -> Result<(), Self::Error> {
        SSD18030::write(self, s)
    }

    fn set_display(&mut self, flags: DisplayConfig) -> Result<(), Self::Error> {
        SSD18030::set_display(self, flags)
    }

    fn set_entry_mode(&mut self, mode: EntryModeSettings) -> Result<(), Self::Error> {
        SSD18030::set_entry_mode(self, mode)
    }

    fn set_view_mode(&mut self, mode: ViewMode) -> Result<(), Self::Error> {
        SSD18030::set_view_mode(self, mode)
    }

    fn set_cursor_off(&mut self) -> Result<(), Self::Error> {
        SSD18030::set_cursor_off(self)
    }

    fn set_blinking_off(&mut self) -> Result<(), Self::Error> {
        SSD18030::set_blinking_off(self)
    }

    fn extended_function_set(&mut self) -> Result<(), Self::Error> {
        SSD18030::extended_function_set(self)
    }

    fn set_double_height(&mut self) -> Result<(), Self::Error> {
        SSD18030::set_double_height(self)
    }

    fn clear_line(&mut self, line: u8) -> Result<(), Self::Error> {
        SSD18030::clear_line(self, line)
    }

    fn clear_chars(&mut self, row_col: (u8, u8), chars: u8) -> Result<(), Self::Error> {
        SSD18030::clear_chars(self, row_col, chars)
    }
}

} // verus!
