//! Logical keys, events and the event-multiplexing facade.
//!
//! Two decoders — one for raw device scancodes, one for terminal key codes —
//! map into the single [`Key`] set, so everything downstream of the queue is
//! source-agnostic. [`EventHandler`] owns the selected-source flag, the device
//! file descriptor and the FIFO queue; the application's producer thread
//! pushes decoded events in and the foreground loop polls them out.

use std::collections::VecDeque;
use vstd::prelude::*;

verus! {

/// Record type of a raw device record that carries a key event.
pub const EV_KEY: u16 = 1;

/// A logical key or character, independent of the source that produced it.
#[derive(Clone, Copy, Debug, PartialEq, Eq, Structural)]
pub enum Key {
    Esc,
    Enter,
    Space,
    Backspace,
    Home,
    End,
    PageUp,
    PageDown,
    Tab,
    BackTab,
    Delete,
    Insert,
    F(u8),
    Char(char),
    Null,
    CapsLock,
    ScrollLock,
    NumLock,
    PrintScreen,
    Pause,
    Menu,
    KeypadBegin,
    Down,
    Up,
    Left,
    Right,
}

/// The fixed table mapping raw device scancodes to logical keys.
///
/// The table is deliberately partial: the device source exists only to
/// capture a few designated counting keys, so every unmapped scancode
/// decodes to `Key::Null` and is inert downstream.
pub open spec fn key_from_scancode(code: u16) -> Key {
    match code {
        1u16 => Key::Esc,
        13u16 => Key::Char('='),
        16u16 => Key::Char('q'),
        28u16 => Key::Enter,
        74u16 => Key::Char('-'),
        78u16 => Key::Char('+'),
        96u16 => Key::Enter,
        _ => Key::Null,
    }
}

impl From<u16> for Key {
    fn from(value: u16) -> (r: Self) {
        match value {
            1u16 => Key::Esc,
            13u16 => Key::Char('='),
            16u16 => Key::Char('q'),
            28u16 => Key::Enter,
            74u16 => Key::Char('-'),
            78u16 => Key::Char('+'),
            96u16 => Key::Enter,
            _ => Key::Null,
        }
    }
}

impl vstd::std_specs::convert::FromSpecImpl<u16> for Key {
    open spec fn obeys_from_spec() -> bool {
        true
    }

    open spec fn from_spec(v: u16) -> Self {
        key_from_scancode(v)
    }
}

impl Key {
    /// The character a key carries, if it is a character key.
    pub fn to_char(&self) -> (r: Option<char>)
        ensures
            r == (match *self {
                Key::Char(c) => Some(c),
                _ => None::<char>,
            }),
    {
        match *self {
            Key::Char(c) => Some(c),
            _ => None,
        }
    }
}

/// Which of the two sources is selected, and which source produced an event.
#[derive(Clone, Copy, Debug, PartialEq, Eq, Structural)]
pub enum HandlerMode {
    Terminal,
    Device,
}

/// The kind of a logical input event: a key, or a mouse position.
#[derive(Clone, Copy, Debug, PartialEq, Eq)]
pub enum EventType {
    KeyEvent(Key),
    MouseEvent((u16, u16)),
}

/// No modifier held.
pub const MODIFIER_NONE: u8 = 0;

/// Bit set when shift is held.
pub const MODIFIER_SHIFT: u8 = 1;

/// Bit set when control is held.
pub const MODIFIER_CONTROL: u8 = 2;

/// Bit set when alt is held.
pub const MODIFIER_ALT: u8 = 4;

/// A timestamped, modifier-tagged, source-tagged logical input event.
///
/// `source` records which source produced the event; it is the basis for
/// the stale-event filtering in [`EventHandler::poll`]. `time` is a logical
/// tick stamped by the handler when the event is queued.
#[derive(Clone, Copy, Debug, PartialEq)]
pub struct Event {
    pub type_: EventType,
    pub modifiers: u8,
    pub time: u64,
    pub source: HandlerMode,
}

/// The event a key decodes to before it is queued: no modifiers, tick not
/// yet stamped, tagged with the terminal source.
pub open spec fn event_from_key(k: Key) -> Event {
    Event { type_: EventType::KeyEvent(k), modifiers: MODIFIER_NONE, time: 0, source: HandlerMode::Terminal }
}

impl From<Key> for Event {
    fn from(value: Key) -> (r: Self) {
        Event { type_: EventType::KeyEvent(value), modifiers: MODIFIER_NONE, time: 0, source: HandlerMode::Terminal }
    }
}

impl vstd::std_specs::convert::FromSpecImpl<Key> for Event {
    open spec fn obeys_from_spec() -> bool {
        true
    }

    open spec fn from_spec(v: Key) -> Self {
        event_from_key(v)
    }
}

/// The key an event carries; a mouse event carries none.
pub open spec fn key_of_event(e: Event) -> Key {
    match e.type_ {
        EventType::KeyEvent(k) => k,
        EventType::MouseEvent(_) => Key::Null,
    }
}

impl From<Event> for Key {
    fn from(value: Event) -> (r: Self) {
        match value.type_ {
            EventType::KeyEvent(k) => k,
            EventType::MouseEvent(_) => Key::Null,
        }
    }
}

impl vstd::std_specs::convert::FromSpecImpl<Event> for Key {
    open spec fn obeys_from_spec() -> bool {
        true
    }

    open spec fn from_spec(v: Event) -> Self {
        key_of_event(v)
    }
}

/// The terminal library's key-code space, held as plain values so the
/// decoder over it can be stated exactly. The application converts the
/// terminal library's own key codes into this type one for one.
#[derive(Clone, Copy, Debug, PartialEq, Eq, Structural)]
pub enum TerminalCode {
    Backspace,
    Enter,
    Left,
    Right,
    Up,
    Down,
    Home,
    End,
    PageUp,
    PageDown,
    Tab,
    BackTab,
    Delete,
    Insert,
    F(u8),
    Char(char),
    Null,
    Esc,
    CapsLock,
    ScrollLock,
    NumLock,
    PrintScreen,
    Pause,
    Menu,
    KeypadBegin,
    Media,
    Modifier,
}

/// The terminal decoder: one-to-one on every named key and character; the
/// categories the handler does not deliver (media and modifier chords)
/// decode to `Key::Null`.
pub open spec fn key_from_terminal_code(code: TerminalCode) -> Key {
    match code {
        TerminalCode::Backspace => Key::Backspace,
        TerminalCode::Enter => Key::Enter,
        TerminalCode::Left => Key::Left,
        TerminalCode::Right => Key::Right,
        TerminalCode::Up => Key::Up,
        TerminalCode::Down => Key::Down,
        TerminalCode::Home => Key::Home,
        TerminalCode::End => Key::End,
        TerminalCode::PageUp => Key::PageUp,
        TerminalCode::PageDown => Key::PageDown,
        TerminalCode::Tab => Key::Tab,
        TerminalCode::BackTab => Key::BackTab,
        TerminalCode::Delete => Key::Delete,
        TerminalCode::Insert => Key::Insert,
        TerminalCode::F(num) => Key::F(num),
        TerminalCode::Char(c) => Key::Char(c),
        TerminalCode::Null => Key::Null,
        TerminalCode::Esc => Key::Esc,
        TerminalCode::CapsLock => Key::CapsLock,
        TerminalCode::ScrollLock => Key::ScrollLock,
        TerminalCode::NumLock => Key::NumLock,
        TerminalCode::PrintScreen => Key::PrintScreen,
        TerminalCode::Pause => Key::Pause,
        TerminalCode::Menu => Key::Menu,
        TerminalCode::KeypadBegin => Key::KeypadBegin,
        TerminalCode::Media => Key::Null,
        TerminalCode::Modifier => Key::Null,
    }
}

impl From<TerminalCode> for Key {
    fn from(value: TerminalCode) -> (r: Self) {
        match value {
            TerminalCode::Backspace => Key::Backspace,
            TerminalCode::Enter => Key::Enter,
            TerminalCode::Left => Key::Left,
            TerminalCode::Right => Key::Right,
            TerminalCode::Up => Key::Up,
            TerminalCode::Down => Key::Down,
            TerminalCode::Home => Key::Home,
            TerminalCode::End => Key::End,
            TerminalCode::PageUp => Key::PageUp,
            TerminalCode::PageDown => Key::PageDown,
            TerminalCode::Tab => Key::Tab,
            TerminalCode::BackTab => Key::BackTab,
            TerminalCode::Delete => Key::Delete,
            TerminalCode::Insert => Key::Insert,
            TerminalCode::F(num) => Key::F(num),
            TerminalCode::Char(c) => Key::Char(c),
            TerminalCode::Null => Key::Null,
            TerminalCode::Esc => Key::Esc,
            TerminalCode::CapsLock => Key::CapsLock,
            TerminalCode::ScrollLock => Key::ScrollLock,
            TerminalCode::NumLock => Key::NumLock,
            TerminalCode::PrintScreen => Key::PrintScreen,
            TerminalCode::Pause => Key::Pause,
            TerminalCode::Menu => Key::Menu,
            TerminalCode::KeypadBegin => Key::KeypadBegin,
            TerminalCode::Media => Key::Null,
            TerminalCode::Modifier => Key::Null,
        }
    }
}

impl vstd::std_specs::convert::FromSpecImpl<TerminalCode> for Key {
    open spec fn obeys_from_spec() -> bool {
        true
    }

    open spec fn from_spec(v: TerminalCode) -> Self {
        key_from_terminal_code(v)
    }
}

impl Event {
    /// The event a terminal key press decodes to before it is queued.
    pub fn from_terminal(code: TerminalCode, modifiers: u8) -> (r: Event)
        ensures
            r == (Event {
                type_: EventType::KeyEvent(key_from_terminal_code(code)),
                modifiers,
                time: 0,
                source: HandlerMode::Terminal,
            }),
    {
        Event {
            type_: EventType::KeyEvent(Key::from(code)),
            modifiers,
            time: 0,
            source: HandlerMode::Terminal,
        }
    }

    /// The event a terminal mouse position decodes to before it is queued.
    pub fn from_mouse(column: u16, row: u16, modifiers: u8) -> (r: Event)
        ensures
            r == (Event {
                type_: EventType::MouseEvent((column, row)),
                modifiers,
                time: 0,
                source: HandlerMode::Terminal,
            }),
    {
        Event { type_: EventType::MouseEvent((column, row)), modifiers, time: 0, source: HandlerMode::Terminal }
    }
}

/// Whether an event is the global interrupt chord (control held together
/// with the character `c`), which must end the process whatever mode the
/// application is in.
pub open spec fn spec_is_interrupt(e: Event) -> bool {
    &&& e.type_ == EventType::KeyEvent(Key::Char('c'))
    &&& e.modifiers & MODIFIER_CONTROL != 0
}

/// Recognizes the interrupt chord; the producer loop checks every terminal
/// event with this before queueing it.
pub fn is_interrupt(e: &Event) -> (r: bool)
    ensures
        r == spec_is_interrupt(*e),
{
    match e.type_ {
        EventType::KeyEvent(Key::Char(c)) => c == 'c' && (e.modifiers & MODIFIER_CONTROL) != 0,
        _ => false,
    }
}

/// A little-endian 16-bit value composed from two bytes.
pub open spec fn le_bytes16(b0: u8, b1: u8) -> u16 {
    (b0 + b1 * 0x100) as u16
}

/// A little-endian 32-bit value composed from four bytes.
pub open spec fn le_bytes32(b0: u8, b1: u8, b2: u8, b3: u8) -> u32 {
    (b0 + b1 * 0x100 + b2 * 0x1_0000 + b3 * 0x100_0000) as u32
}

/// A little-endian 64-bit value composed from eight bytes.
pub open spec fn le_bytes64(b0: u8, b1: u8, b2: u8, b3: u8, b4: u8, b5: u8, b6: u8, b7: u8) -> u64 {
    (b0 + b1 * 0x100 + b2 * 0x1_0000 + b3 * 0x100_0000 + b4 * 0x1_0000_0000
        + b5 * 0x100_0000_0000 + b6 * 0x1_0000_0000_0000 + b7 * 0x100_0000_0000_0000) as u64
}

/// The signed value whose two's-complement bit pattern is `n`.
pub open spec fn signed32_of(n: u32) -> i32 {
    if n < 0x8000_0000 {
        n as i32
    } else {
        (n - 0x1_0000_0000) as i32
    }
}

/// The signed value whose two's-complement bit pattern is `n`.
pub open spec fn signed64_of(n: u64) -> i64 {
    if n < 0x8000_0000_0000_0000 {
        n as i64
    } else {
        (n - 0x1_0000_0000_0000_0000) as i64
    }
}

fn read_u16_le(b0: u8, b1: u8) -> (r: u16)
    ensures
        r == le_bytes16(b0, b1),
{
    (b0 as u16) + (b1 as u16) * 0x100
}

fn read_u32_le(b0: u8, b1: u8, b2: u8, b3: u8) -> (r: u32)
    ensures
        r == le_bytes32(b0, b1, b2, b3),
{
    (b0 as u32) + (b1 as u32) * 0x100 + (b2 as u32) * 0x1_0000 + (b3 as u32) * 0x100_0000
}

fn read_u64_le(b0: u8, b1: u8, b2: u8, b3: u8, b4: u8, b5: u8, b6: u8, b7: u8) -> (r: u64)
    ensures
        r == le_bytes64(b0, b1, b2, b3, b4, b5, b6, b7),
{
    (b0 as u64) + (b1 as u64) * 0x100 + (b2 as u64) * 0x1_0000 + (b3 as u64) * 0x100_0000
        + (b4 as u64) * 0x1_0000_0000 + (b5 as u64) * 0x100_0000_0000
        + (b6 as u64) * 0x1_0000_0000_0000 + (b7 as u64) * 0x100_0000_0000_0000
}

fn to_signed32(n: u32) -> (r: i32)
    ensures
        r == signed32_of(n),
{
    if n < 0x8000_0000 {
        n as i32
    } else {
        ((n - 0x8000_0000) as i32) + i32::MIN
    }
}

fn to_signed64(n: u64) -> (r: i64)
    ensures
        r == signed64_of(n),
{
    if n < 0x8000_0000_0000_0000 {
        n as i64
    } else {
        ((n - 0x8000_0000_0000_0000) as i64) + i64::MIN
    }
}

/// One fixed-layout record read from a raw input-device node: a timestamp
/// in seconds and microseconds, a record type, a scancode and a value,
/// exactly as the 24-byte on-disk layout orders them.
#[derive(Clone, Copy, Debug, PartialEq)]
pub struct DevInputEvent {
    pub time: (i64, i64),
    pub type_: u16,
    pub code: u16,
    pub value: i32,
}

/// The record the first 24 bytes of `s` lay out: seconds and microseconds
/// as little-endian signed 64-bit words, then the type, the scancode and
/// the signed 32-bit value.
pub open spec fn record_of(s: Seq<u8>) -> DevInputEvent
    recommends
        s.len() >= 24,
{
    DevInputEvent {
        time: (
            signed64_of(le_bytes64(s[0], s[1], s[2], s[3], s[4], s[5], s[6], s[7])),
            signed64_of(le_bytes64(s[8], s[9], s[10], s[11], s[12], s[13], s[14], s[15])),
        ),
        type_: le_bytes16(s[16], s[17]),
        code: le_bytes16(s[18], s[19]),
        value: signed32_of(le_bytes32(s[20], s[21], s[22], s[23])),
    }
}

/// Only key records whose value marks a key release are accepted as
/// logical key presses; everything else is dropped at the decode boundary.
pub open spec fn record_accepted(r: DevInputEvent) -> bool {
    r.type_ == EV_KEY && r.value == 0
}

impl DevInputEvent {
    /// Decodes one raw record from the bytes a device read produced.
    ///
    /// Returns the record exactly as the bytes lay it out when it is an
    /// accepted key-release record, and nothing when the buffer is short
    /// or the record is of any other kind.
    pub fn from_record(buf: &[u8]) -> (r: Option<DevInputEvent>)
        ensures
            buf@.len() < 24 ==> r is None,
            buf@.len() >= 24 ==> r == (if record_accepted(record_of(buf@)) {
                Some(record_of(buf@))
            } else {
                None::<DevInputEvent>
            }),
    {
        if buf.len() < 24 {
            return None;
        }
        let secs = read_u64_le(buf[0], buf[1], buf[2], buf[3], buf[4], buf[5], buf[6], buf[7]);
        let usecs = read_u64_le(buf[8], buf[9], buf[10], buf[11], buf[12], buf[13], buf[14], buf[15]);
        let event = DevInputEvent {
            time: (to_signed64(secs), to_signed64(usecs)),
            type_: read_u16_le(buf[16], buf[17]),
            code: read_u16_le(buf[18], buf[19]),
            value: to_signed32(read_u32_le(buf[20], buf[21], buf[22], buf[23])),
        };
        if event.type_ == EV_KEY && event.value == 0 {
            Some(event)
        } else {
            None
        }
    }
}

impl Default for DevInputEvent {
    /// A zeroed record; its type marks no key, so it is never accepted.
    fn default() -> (r: Self)
        ensures
            r.time == (0i64, 0i64),
            r.type_ == 0,
            r.code == 0,
            r.value == 0,
    {
        DevInputEvent { time: (0, 0), type_: 0, code: 0, value: 0 }
    }
}

/// The event a raw device record decodes to before it is queued: the
/// scancode mapped through the fixed table, no modifiers (the device path
/// cannot report them), tagged with the device source.
pub open spec fn event_from_device(rec: DevInputEvent) -> Event {
    Event {
        type_: EventType::KeyEvent(key_from_scancode(rec.code)),
        modifiers: MODIFIER_NONE,
        time: 0,
        source: HandlerMode::Device,
    }
}

impl From<DevInputEvent> for Event {
    fn from(value: DevInputEvent) -> (r: Self) {
        Event {
            type_: EventType::KeyEvent(Key::from(value.code)),
            modifiers: MODIFIER_NONE,
            time: 0,
            source: HandlerMode::Device,
        }
    }
}

impl vstd::std_specs::convert::FromSpecImpl<DevInputEvent> for Event {
    open spec fn obeys_from_spec() -> bool {
        true
    }

    open spec fn from_spec(v: DevInputEvent) -> Self {
        event_from_device(v)
    }
}

/// A thread-coordination failure: the lock guarding the named piece of
/// shared state was unavailable or poisoned. The concurrent wrapper around
/// the handler reports these; the handler itself never raises one.
#[derive(Clone, Copy, Debug, PartialEq, Eq, Structural)]
pub enum ThreadError {
    ThreadStateLock,
    EventStreamLock,
}

/// The settable cell holding the raw device file descriptor; zero means
/// the device source is disabled.
#[derive(Clone, Copy, Debug)]
pub struct DevInputFileDescriptor(i32);

impl DevInputFileDescriptor {
    /// The descriptor the cell holds.
    pub closed spec fn spec_value(&self) -> i32 {
        self.0
    }

    pub fn new(fd: i32) -> (r: Self)
        ensures
            r.spec_value() == fd,
    {
        DevInputFileDescriptor(fd)
    }

    pub fn value(&self) -> (r: i32)
        ensures
            r == self.spec_value(),
    {
        self.0
    }

    pub fn set(&mut self, fd: i32)
        ensures
            final(self).spec_value() == fd,
    {
        self.0 = fd;
    }
}

impl Default for DevInputFileDescriptor {
    fn default() -> (r: Self)
        ensures
            r.spec_value() == 0,
    {
        DevInputFileDescriptor(0)
    }
}

/// The ordered buffer of pending events: appended at the producer end,
/// drained oldest-first at the consumer end.
pub struct EventQueue {
    items: VecDeque<Event>,
}

impl View for EventQueue {
    type V = Seq<Event>;

    closed spec fn view(&self) -> Seq<Event> {
        self.items@
    }
}

impl EventQueue {
    pub fn new() -> (r: Self)
        ensures
            r@ == Seq::<Event>::empty(),
    {
        EventQueue { items: VecDeque::new() }
    }

    /// Appends an event at the producer end.
    pub fn push(&mut self, e: Event)
        ensures
            final(self)@ == old(self)@.push(e),
    {
        self.items.push_back(e);
    }

    /// Removes and returns the oldest event, if any.
    pub fn pop_front(&mut self) -> (r: Option<Event>)
        ensures
            old(self)@.len() == 0 ==> r is None && final(self)@ == old(self)@,
            old(self)@.len() > 0 ==> r == Some(old(self)@[0])
                && final(self)@ == old(self)@.drop_first(),
    {
        let r = self.items.pop_front();
        proof {
            if old(self)@.len() > 0 {
                assert(self@ =~= old(self)@.drop_first());
            }
        }
        r
    }

    pub fn len(&self) -> (r: usize)
        ensures
            r == self@.len(),
    {
        self.items.len()
    }

    /// Drops every pending event.
    pub fn clear(&mut self)
        ensures
            final(self)@ == Seq::<Event>::empty(),
    {
        self.items.clear();
    }

    /// A copy of the pending events, oldest first.
    pub fn snapshot(&self) -> (r: VecDeque<Event>)
        ensures
            r@ == self@,
    {
        let mut out: VecDeque<Event> = VecDeque::new();
        let n = self.items.len();
        let mut i: usize = 0;
        while i < n
            invariant
                n == self@.len(),
                i <= n,
                out@ == self@.subrange(0, i as int),
            decreases n - i,
        {
            out.push_back(self.items[i]);
            i = i + 1;
            proof {
                assert(out@ =~= self@.subrange(0, i as int));
            }
        }
        proof {
            assert(out@ =~= self@);
        }
        out
    }
}

/// The selected source after a toggle.
pub open spec fn toggled(m: HandlerMode) -> HandlerMode {
    match m {
        HandlerMode::Terminal => HandlerMode::Device,
        HandlerMode::Device => HandlerMode::Terminal,
    }
}

/// The event `e` as the handler queues it: stamped with the logical tick.
pub open spec fn stamped(e: Event, tick: u64) -> Event {
    Event { time: tick, ..e }
}

/// The tick counter after one event was stamped; it stops at the largest
/// value rather than wrap.
pub open spec fn tick_next(t: u64) -> u64 {
    if t < u64::MAX {
        (t + 1) as u64
    } else {
        t
    }
}

/// What one poll returns: nothing from an empty queue; the oldest event
/// when its source tag matches the selected source; nothing — with the
/// stale event discarded — when the tag does not match.
pub open spec fn poll_result(q: Seq<Event>, mode: HandlerMode) -> Option<Event> {
    if q.len() == 0 {
        None
    } else if q[0].source == mode {
        Some(q[0])
    } else {
        None
    }
}

/// The queue one poll leaves behind: the oldest event is removed whether
/// it was delivered or discarded as stale.
pub open spec fn poll_rest(q: Seq<Event>) -> Seq<Event> {
    if q.len() == 0 {
        q
    } else {
        q.drop_first()
    }
}

/// The facade over the two input sources: owns the selected-source flag,
/// the device file descriptor, the FIFO queue, the running flag and the
/// logical tick counter that stamps queued events.
///
/// The handler is the sequential core of the subsystem. The surrounding
/// application shares it behind a lock: its producer thread decodes raw
/// input and calls [`EventHandler::push_event`], its foreground loop calls
/// [`EventHandler::poll`] and the other accessors, and lock failures are
/// surfaced there as [`ThreadError`] values.
pub struct EventHandler {
    mode: HandlerMode,
    fd: DevInputFileDescriptor,
    queue: EventQueue,
    running: bool,
    clock: u64,
}

impl EventHandler {
    /// The pending events, oldest first.
    pub closed spec fn events(&self) -> Seq<Event> {
        self.queue@
    }

    /// The currently selected source.
    pub closed spec fn selected(&self) -> HandlerMode {
        self.mode
    }

    /// The configured device descriptor; zero means none.
    pub closed spec fn device_fd(&self) -> i32 {
        self.fd.spec_value()
    }

    /// Whether the producer loop is asked to keep running.
    pub closed spec fn is_running(&self) -> bool {
        self.running
    }

    /// The logical tick the next queued event will carry.
    pub closed spec fn ticks(&self) -> u64 {
        self.clock
    }

    /// A fresh handler: terminal source selected, device disabled, queue
    /// empty, not running.
    pub fn new() -> (r: Self)
        ensures
            r.selected() == HandlerMode::Terminal,
            r.device_fd() == 0,
            r.events() == Seq::<Event>::empty(),
            !r.is_running(),
            r.ticks() == 0,
    {
        EventHandler {
            mode: HandlerMode::Terminal,
            fd: DevInputFileDescriptor::new(0),
            queue: EventQueue::new(),
            running: false,
            clock: 0,
        }
    }

    /// Sets the running flag; the application then spawns the producer
    /// thread. Restarting an already running handler is safe: nothing but
    /// the flag changes.
    pub fn start(&mut self) -> (r: Result<(), ThreadError>)
        ensures
            r is Ok,
            final(self).is_running(),
            final(self).selected() == old(self).selected(),
            final(self).device_fd() == old(self).device_fd(),
            final(self).events() == old(self).events(),
            final(self).ticks() == old(self).ticks(),
    {
        self.running = true;
        Ok(())
    }

    /// Clears the running flag; the producer loop observes it between
    /// blocking reads and exits.
    pub fn stop(&mut self)
        ensures
            !final(self).is_running(),
            final(self).selected() == old(self).selected(),
            final(self).device_fd() == old(self).device_fd(),
            final(self).events() == old(self).events(),
            final(self).ticks() == old(self).ticks(),
    {
        self.running = false;
    }

    /// Swaps the device descriptor.
    pub fn set_fd(&mut self, fd: i32)
        ensures
            final(self).device_fd() == fd,
            final(self).selected() == old(self).selected(),
            final(self).events() == old(self).events(),
            final(self).is_running() == old(self).is_running(),
            final(self).ticks() == old(self).ticks(),
    {
        self.fd.set(fd);
    }

    /// Selects a source outright, leaving the queue as it is; stale
    /// events are discarded one by one as they are polled.
    pub fn set_mode(&mut self, mode: HandlerMode)
        ensures
            final(self).selected() == mode,
            final(self).device_fd() == old(self).device_fd(),
            final(self).events() == old(self).events(),
            final(self).is_running() == old(self).is_running(),
            final(self).ticks() == old(self).ticks(),
    {
        self.mode = mode;
    }

    /// The currently selected source.
    pub fn get_mode(&self) -> (r: HandlerMode)
        ensures
            r == self.selected(),
    {
        self.mode
    }

    /// Whether the producer loop is asked to keep running; the loop reads
    /// this between blocking calls.
    pub fn running(&self) -> (r: bool)
        ensures
            r == self.is_running(),
    {
        self.running
    }

    /// Flips the selected source, but only once a device descriptor has
    /// been configured — with none there is nothing to switch to, and the
    /// call changes nothing at all. A real switch immediately clears the
    /// queue, dropping every event buffered from the now-inactive source.
    pub fn toggle_mode(&mut self)
        ensures
            old(self).device_fd() == 0 ==> *final(self) == *old(self),
            old(self).device_fd() != 0 ==> {
                &&& final(self).selected() == toggled(old(self).selected())
                &&& final(self).events() == Seq::<Event>::empty()
                &&& final(self).device_fd() == old(self).device_fd()
                &&& final(self).is_running() == old(self).is_running()
                &&& final(self).ticks() == old(self).ticks()
            },
    {
        if self.fd.value() == 0 {
            return;
        }
        self.mode = match self.mode {
            HandlerMode::Terminal => HandlerMode::Device,
            HandlerMode::Device => HandlerMode::Terminal,
        };
        self.queue.clear();
    }

    /// Whether any event is pending; never blocks.
    pub fn has_event(&self) -> (r: bool)
        ensures
            r == (self.events().len() > 0),
    {
        self.queue.len() > 0
    }

    /// Inspects the oldest pending event. If its source tag matches the
    /// selected source it is removed and returned; if not, it is stale and
    /// is removed without being returned — the caller polls again to see
    /// the next candidate. An empty queue returns nothing and stays as it
    /// is. Never blocks.
    pub fn poll(&mut self) -> (r: Option<Event>)
        ensures
            r == poll_result(old(self).events(), old(self).selected()),
            final(self).events() == poll_rest(old(self).events()),
            final(self).selected() == old(self).selected(),
            final(self).device_fd() == old(self).device_fd(),
            final(self).is_running() == old(self).is_running(),
            final(self).ticks() == old(self).ticks(),
    {
        match self.queue.pop_front() {
            None => None,
            Some(event) => {
                if event.source == self.mode {
                    Some(event)
                } else {
                    None
                }
            },
        }
    }

    /// A read-only snapshot of the pending events, oldest first; for
    /// diagnostics only.
    pub fn get_buffer(&self) -> (r: VecDeque<Event>)
        ensures
            r@ == self.events(),
    {
        self.queue.snapshot()
    }

    /// Appends a decoded event, stamped with the current tick. The
    /// producer thread hands every decoded source event in through this.
    pub fn push_event(&mut self, e: Event)
        ensures
            final(self).events() == old(self).events().push(stamped(e, old(self).ticks())),
            final(self).ticks() == tick_next(old(self).ticks()),
            final(self).selected() == old(self).selected(),
            final(self).device_fd() == old(self).device_fd(),
            final(self).is_running() == old(self).is_running(),
    {
        let stamped_event = Event {
            type_: e.type_,
            modifiers: e.modifiers,
            time: self.clock,
            source: e.source,
        };
        self.queue.push(stamped_event);
        if self.clock < u64::MAX {
            self.clock = self.clock + 1;
        }
    }

    /// Injects a synthetic key event tagged with the terminal source, for
    /// deterministic testing without driving real input.
    pub fn simulate_key(&mut self, key: Key)
        ensures
            final(self).events() == old(self).events().push(
                stamped(event_from_key(key), old(self).ticks()),
            ),
            final(self).ticks() == tick_next(old(self).ticks()),
            final(self).selected() == old(self).selected(),
            final(self).device_fd() == old(self).device_fd(),
            final(self).is_running() == old(self).is_running(),
    {
        self.push_event(Event::from(key));
    }
}

impl Default for EventHandler {
    fn default() -> (r: Self)
        ensures
            r.selected() == HandlerMode::Terminal,
            r.device_fd() == 0,
            r.events() == Seq::<Event>::empty(),
            !r.is_running(),
            r.ticks() == 0,
    {
        EventHandler::new()
    }
}

/// Every scancode outside the mapped table decodes to `Key::Null`, and the
/// mapped scancodes decode exactly as the table says.
pub proof fn lemma_scancode_decode_total(code: u16)
    ensures
        code == 1 ==> key_from_scancode(code) == Key::Esc,
        code == 13 ==> key_from_scancode(code) == Key::Char('='),
        code == 16 ==> key_from_scancode(code) == Key::Char('q'),
        code == 28 ==> key_from_scancode(code) == Key::Enter,
        code == 74 ==> key_from_scancode(code) == Key::Char('-'),
        code == 78 ==> key_from_scancode(code) == Key::Char('+'),
        code == 96 ==> key_from_scancode(code) == Key::Enter,
        !(code == 1 || code == 13 || code == 16 || code == 28 || code == 74
            || code == 78 || code == 96) ==> key_from_scancode(code) == Key::Null,
{
}

/// Injection round-trip: a key simulated into an empty queue while the
/// terminal source is selected is returned by the very next poll, and it
/// decodes back to exactly the key that was injected; the queue is empty
/// again afterwards.
pub proof fn lemma_injection_round_trip(k: Key, tick: u64)
    ensures
        poll_result(
            Seq::<Event>::empty().push(stamped(event_from_key(k), tick)),
            HandlerMode::Terminal,
        ) == Some(stamped(event_from_key(k), tick)),
        key_of_event(stamped(event_from_key(k), tick)) == k,
        poll_rest(Seq::<Event>::empty().push(stamped(event_from_key(k), tick)))
            == Seq::<Event>::empty(),
{
    let q = Seq::<Event>::empty().push(stamped(event_from_key(k), tick));
    assert(poll_rest(q) =~= Seq::<Event>::empty());
}

/// FIFO preservation: three keys simulated in order into an empty queue
/// are delivered by three successive polls in that same order, and the
/// queue is empty afterwards.
pub proof fn lemma_fifo_preservation(k1: Key, k2: Key, k3: Key, t1: u64, t2: u64, t3: u64)
    ensures
        ({
            let e1 = stamped(event_from_key(k1), t1);
            let e2 = stamped(event_from_key(k2), t2);
            let e3 = stamped(event_from_key(k3), t3);
            let q0 = Seq::<Event>::empty().push(e1).push(e2).push(e3);
            let q1 = poll_rest(q0);
            let q2 = poll_rest(q1);
            let q3 = poll_rest(q2);
            &&& poll_result(q0, HandlerMode::Terminal) == Some(e1)
            &&& poll_result(q1, HandlerMode::Terminal) == Some(e2)
            &&& poll_result(q2, HandlerMode::Terminal) == Some(e3)
            &&& q3 == Seq::<Event>::empty()
            &&& key_of_event(e1) == k1
            &&& key_of_event(e2) == k2
            &&& key_of_event(e3) == k3
        }),
{
    let e1 = stamped(event_from_key(k1), t1);
    let e2 = stamped(event_from_key(k2), t2);
    let e3 = stamped(event_from_key(k3), t3);
    let q0 = Seq::<Event>::empty().push(e1).push(e2).push(e3);
    let q1 = poll_rest(q0);
    let q2 = poll_rest(q1);
    let q3 = poll_rest(q2);
    assert(q1 =~= seq![e2, e3]);
    assert(q2 =~= seq![e3]);
    assert(q3 =~= Seq::<Event>::empty());
}

/// Stale-event discard: when the oldest queued event is tagged with a
/// source other than the selected one, a poll does not return it, yet
/// removes it from the queue.
pub proof fn lemma_stale_event_discarded(q: Seq<Event>, mode: HandlerMode)
    requires
        q.len() > 0,
        q[0].source != mode,
    ensures
        poll_result(q, mode) is None,
        poll_rest(q) == q.drop_first(),
{
}

/// Empty-queue contract: a poll against an empty queue returns nothing
/// and leaves the queue empty, whichever source is selected.
pub proof fn lemma_poll_empty(mode: HandlerMode)
    ensures
        poll_result(Seq::<Event>::empty(), mode) is None,
        poll_rest(Seq::<Event>::empty()) == Seq::<Event>::empty(),
{
}

} // verus!
