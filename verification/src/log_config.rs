//! The settings of a logger: which parts of a log line it prints, from which level on, and
//! how it pads them.
use vstd::prelude::*;
use vstd::string::StrSliceExecFns;

verus! {

/// The most verbose level a part of a log line is printed at.
#[derive(Clone, Copy, Debug, PartialEq, Eq, Structural)]
pub enum LevelFilter {
    /// Never.
    Off,
    /// Up to errors.
    Error,
    /// Up to warnings.
    Warn,
    /// Up to information.
    Info,
    /// Up to debugging.
    Debug,
    /// Up to tracing, the most verbose.
    Trace,
}

/// The level of a log record, from the most severe to the most verbose.
#[derive(Clone, Copy, Debug, PartialEq, Eq, Structural)]
pub enum Level {
    Error,
    Warn,
    Info,
    Debug,
    Trace,
}

/// The slot of `level` in `Config::level_color`: 1 for Error up to 5 for Trace; slot 0 is the
/// default foreground.
pub open spec fn level_slot(level: Level) -> int {
    match level {
        Level::Error => 1,
        Level::Warn => 2,
        Level::Info => 3,
        Level::Debug => 4,
        Level::Trace => 5,
    }
}

/// The slots number the levels from 1 in order of verbosity, as `log::Level as usize` does:
/// Error 1, Warn 2, Info 3, Debug 4 and Trace 5, so that each level has a slot of its own and
/// a more verbose level a higher one; slot 0 stays the default foreground.
pub proof fn lemma_level_slots(a: Level, b: Level)
    ensures
        1 <= level_slot(a) <= 5,
        level_slot(a) == level_slot(b) ==> a == b,
        level_slot(Level::Error) == 1,
        level_slot(Level::Warn) == 2,
        level_slot(Level::Info) == 3,
        level_slot(Level::Debug) == 4,
        level_slot(Level::Trace) == 5,
        filter_rank(LevelFilter::Error) == level_slot(Level::Error),
        filter_rank(LevelFilter::Warn) == level_slot(Level::Warn),
        filter_rank(LevelFilter::Info) == level_slot(Level::Info),
        filter_rank(LevelFilter::Debug) == level_slot(Level::Debug),
        filter_rank(LevelFilter::Trace) == level_slot(Level::Trace),
{
}

fn slot_of(level: Level) -> (r: usize)
    ensures
        r == level_slot(level),
{
    match level {
        Level::Error => 1,
        Level::Warn => 2,
        Level::Info => 3,
        Level::Debug => 4,
        Level::Trace => 5,
    }
}

/// A terminal colour.
#[derive(Clone, Copy, Debug, PartialEq, Eq, Structural)]
pub enum Color {
    Black,
    Blue,
    Green,
    Red,
    Cyan,
    Magenta,
    Yellow,
    White,
    /// A colour of the 256-colour palette.
    Ansi256(u8),
    /// A colour given by its red, green and blue parts.
    Rgb(u8, u8, u8),
}

/// Padding to be used for logging the level.
#[derive(Clone, Copy, Debug, PartialEq, Eq, Structural)]
pub enum LevelPadding {
    /// Add spaces on the left side.
    Left,
    /// Add spaces on the right side.
    Right,
    /// Do not pad the level.
    Off,
}

/// Padding to be used for logging the thread id or name.
#[derive(Clone, Copy, Debug, PartialEq, Eq, Structural)]
pub enum ThreadPadding {
    /// Add spaces on the left side, up to this many.
    Left(usize),
    /// Add spaces on the right side, up to this many.
    Right(usize),
    /// Do not pad the thread id or name.
    Off,
}

/// Mode for logging the thread name or id or both.
#[derive(Clone, Copy, Debug, PartialEq, Eq, Structural)]
pub enum ThreadLogMode {
    /// Log thread ids only.
    IDs,
    /// Log the thread names only.
    Names,
    /// If this thread is named, log the name; otherwise, log the thread id.
    Both,
}

/// Configuration for the loggers: which parts of a line are printed from which level on, how
/// they are padded, how the time is written, and which modules are let through or ignored.
///
/// A line reads `00:00:00 [LEVEL] crate::module: [lib.rs::100] your_message`, every part but
/// the message being optional.
#[derive(Debug)]
pub struct Config {
    pub time: LevelFilter,
    pub level: LevelFilter,
    pub level_padding: LevelPadding,
    pub thread: LevelFilter,
    pub thread_log_mode: ThreadLogMode,
    pub thread_padding: ThreadPadding,
    pub target: LevelFilter,
    pub location: LevelFilter,
    /// The strftime format of the time.
    pub time_format: String,
    /// The offset from UTC of the time, in seconds east, less than a day either way.
    pub time_offset: i32,
    /// Whether the time is local rather than UTC.
    pub time_local: bool,
    /// Only records of modules starting with one of these are printed, if any is given.
    pub filter_allow: Vec<String>,
    /// Records of modules starting with one of these are not printed.
    pub filter_ignore: Vec<String>,
    /// The colour of the level of a record, by `level_slot`; `None` is the default
    /// foreground colour.
    pub level_color: [Option<Color>; 6],
}

impl Config {
    /// `self` and `other` hold the same settings.
    pub open spec fn same_as(&self, other: &Config) -> bool {
        &&& self.time == other.time
        &&& self.level == other.level
        &&& self.level_padding == other.level_padding
        &&& self.thread == other.thread
        &&& self.thread_log_mode == other.thread_log_mode
        &&& self.thread_padding == other.thread_padding
        &&& self.target == other.target
        &&& self.location == other.location
        &&& self.time_format@ == other.time_format@
        &&& self.time_offset == other.time_offset
        &&& self.time_local == other.time_local
        &&& self.filter_allow@ == other.filter_allow@
        &&& self.filter_ignore@ == other.filter_ignore@
        &&& self.level_color@ == other.level_color@
    }

    /// The default settings: the time and level at Error and above, thread and target at
    /// Debug, location at Trace, no padding, thread ids, `%H:%M:%S` in UTC, and no filters.
    pub open spec fn is_default(&self) -> bool {
        &&& self.time == LevelFilter::Error
        &&& self.level == LevelFilter::Error
        &&& self.level_padding == LevelPadding::Off
        &&& self.thread == LevelFilter::Debug
        &&& self.thread_log_mode == ThreadLogMode::IDs
        &&& self.thread_padding == ThreadPadding::Off
        &&& self.target == LevelFilter::Debug
        &&& self.location == LevelFilter::Trace
        &&& self.time_format@ == "%H:%M:%S"@
        &&& self.time_offset == 0
        &&& !self.time_local
        &&& self.filter_allow@.len() == 0
        &&& self.filter_ignore@.len() == 0
        &&& self.level_color@ == seq![
            None,
            Some(Color::Red),
            Some(Color::Yellow),
            Some(Color::Blue),
            Some(Color::Cyan),
            Some(Color::White),
        ]
    }
}

fn copy_strings(v: &Vec<String>) -> (r: Vec<String>)
    ensures
        r@ == v@,
{
    let mut r: Vec<String> = Vec::new();
    let mut i: usize = 0;
    while i < v.len()
        invariant
            i <= v@.len(),
            r@ == v@.subrange(0, i as int),
        decreases v@.len() - i,
    {
        let c = v[i].clone();
        r.push(c);
        assert(r@ =~= v@.subrange(0, i + 1));
        i += 1;
    }
    assert(v@.subrange(0, v@.len() as int) =~= v@);
    r
}

fn copy_config(c: &Config) -> (r: Config)
    ensures
        r.same_as(c),
{
    Config {
        time: c.time,
        level: c.level,
        level_padding: c.level_padding,
        thread: c.thread,
        thread_log_mode: c.thread_log_mode,
        thread_padding: c.thread_padding,
        target: c.target,
        location: c.location,
        time_format: c.time_format.clone(),
        time_offset: c.time_offset,
        time_local: c.time_local,
        filter_allow: copy_strings(&c.filter_allow),
        filter_ignore: copy_strings(&c.filter_ignore),
        level_color: c.level_color,
    }
}

impl Default for Config {
    /// The default settings.
    fn default() -> (c: Config)
        ensures
            c.is_default(),
    {
        Config {
            time: LevelFilter::Error,
            level: LevelFilter::Error,
            level_padding: LevelPadding::Off,
            thread: LevelFilter::Debug,
            thread_log_mode: ThreadLogMode::IDs,
            thread_padding: ThreadPadding::Off,
            target: LevelFilter::Debug,
            location: LevelFilter::Trace,
            time_format: "%H:%M:%S".to_owned(),
            time_offset: 0,
            time_local: false,
            filter_allow: Vec::new(),
            filter_ignore: Vec::new(),
            level_color: [
                None,
                Some(Color::Red),
                Some(Color::Yellow),
                Some(Color::Blue),
                Some(Color::Cyan),
                Some(Color::White),
            ],
        }
    }
}

/// How verbose `f` lets a part be printed: 0 for never up to 5 for tracing.
pub open spec fn filter_rank(f: LevelFilter) -> int {
    match f {
        LevelFilter::Off => 0,
        LevelFilter::Error => 1,
        LevelFilter::Warn => 2,
        LevelFilter::Info => 3,
        LevelFilter::Debug => 4,
        LevelFilter::Trace => 5,
    }
}

/// Whether a part of the line set to `part` is printed on a record of level `level`: the part
/// is printed from its level on, the more verbose levels included, and never when `Off`.
pub fn shows_part(part: LevelFilter, level: Level) -> (r: bool)
    ensures
        r == (filter_rank(part) != 0 && filter_rank(part) <= level_slot(level)),
{
    let rank: usize = match part {
        LevelFilter::Off => 0,
        LevelFilter::Error => 1,
        LevelFilter::Warn => 2,
        LevelFilter::Info => 3,
        LevelFilter::Debug => 4,
        LevelFilter::Trace => 5,
    };
    rank != 0 && rank <= slot_of(level)
}

/// `s` begins with `p`.
pub open spec fn has_prefix(s: Seq<char>, p: Seq<char>) -> bool {
    p.len() <= s.len() && s.subrange(0, p.len() as int) == p
}

/// Some text of `list` begins `t`.
pub open spec fn some_prefix(list: Seq<String>, t: Seq<char>) -> bool {
    exists|i: int| 0 <= i < list.len() && has_prefix(t, #[trigger] list[i]@)
}

/// Whether `s` begins with `p`.
fn starts_with(s: &str, p: &str) -> (r: bool)
    ensures
        r == has_prefix(s@, p@),
{
    let n = p.unicode_len();
    let m = s.unicode_len();
    if n > m {
        return false;
    }
    let mut i: usize = 0;
    while i < n
        invariant
            n == p@.len(),
            m == s@.len(),
            n <= m,
            i <= n,
            forall|j: int| 0 <= j < i ==> s@[j] == p@[j],
        decreases n - i,
    {
        if s.get_char(i) != p.get_char(i) {
            assert(s@.subrange(0, n as int)[i as int] != p@[i as int]);
            return false;
        }
        i += 1;
    }
    assert(s@.subrange(0, n as int) =~= p@);
    true
}

/// Whether some text of `list` begins `t`.
fn any_prefix(list: &Vec<String>, t: &str) -> (r: bool)
    ensures
        r == some_prefix(list@, t@),
{
    let mut i: usize = 0;
    while i < list.len()
        invariant
            i <= list@.len(),
            forall|j: int| 0 <= j < i ==> !has_prefix(t@, #[trigger] list@[j]@),
        decreases list@.len() - i,
    {
        if starts_with(t, list[i].as_str()) {
            return true;
        }
        i += 1;
    }
    false
}

impl Config {
    /// Records of module `target` are printed: when prefixes to let through are given, the
    /// target begins with one of them, and it begins with none of the prefixes to ignore.
    pub open spec fn lets_through_spec(&self, target: Seq<char>) -> bool {
        &&& (self.filter_allow@.len() == 0 || some_prefix(self.filter_allow@, target))
        &&& !some_prefix(self.filter_ignore@, target)
    }

    /// Whether records of module `target` are printed.
    pub fn lets_through(&self, target: &str) -> (r: bool)
        ensures
            r == self.lets_through_spec(target@),
    {
        if self.filter_allow.len() != 0 && !any_prefix(&self.filter_allow, target) {
            return false;
        }
        !any_prefix(&self.filter_ignore, target)
    }
}

/// Builds a `Config`: each setter changes one setting and leaves the others.
#[derive(Debug)]
pub struct ConfigBuilder(pub Config);

impl Default for ConfigBuilder {
    /// A builder holding the default settings.
    fn default() -> (b: ConfigBuilder)
        ensures
            b.0.is_default(),
    {
        ConfigBuilder::new()
    }
}

impl ConfigBuilder {
    /// A builder holding the default settings.
    pub fn new() -> (b: ConfigBuilder)
        ensures
            b.0.is_default(),
    {
        ConfigBuilder(Config::default())
    }

    /// Sets from which level on the level itself is printed.
    pub fn set_max_level(&mut self, level: LevelFilter) -> (r: &mut ConfigBuilder)
        ensures
            r.0 == (Config { level, ..old(self).0 }),
            *final(self) == *final(r),
    {
        self.0.level = level;
        self
    }

    /// Sets from which level on the time is printed.
    pub fn set_time_level(&mut self, time: LevelFilter) -> (r: &mut ConfigBuilder)
        ensures
            r.0 == (Config { time, ..old(self).0 }),
            *final(self) == *final(r),
    {
        self.0.time = time;
        self
    }

    /// Sets from which level on the thread is printed.
    pub fn set_thread_level(&mut self, thread: LevelFilter) -> (r: &mut ConfigBuilder)
        ensures
            r.0 == (Config { thread, ..old(self).0 }),
            *final(self) == *final(r),
    {
        self.0.thread = thread;
        self
    }

    /// Sets from which level on the target is printed.
    pub fn set_target_level(&mut self, target: LevelFilter) -> (r: &mut ConfigBuilder)
        ensures
            r.0 == (Config { target, ..old(self).0 }),
            *final(self) == *final(r),
    {
        self.0.target = target;
        self
    }

    /// Sets from which level on the source location is printed.
    pub fn set_location_level(&mut self, location: LevelFilter) -> (r: &mut ConfigBuilder)
        ensures
            r.0 == (Config { location, ..old(self).0 }),
            *final(self) == *final(r),
    {
        self.0.location = location;
        self
    }

    /// Sets how the level is padded.
    pub fn set_level_padding(&mut self, padding: LevelPadding) -> (r: &mut ConfigBuilder)
        ensures
            r.0 == (Config { level_padding: padding, ..old(self).0 }),
            *final(self) == *final(r),
    {
        self.0.level_padding = padding;
        self
    }

    /// Sets how the thread is padded.
    pub fn set_thread_padding(&mut self, padding: ThreadPadding) -> (r: &mut ConfigBuilder)
        ensures
            r.0 == (Config { thread_padding: padding, ..old(self).0 }),
            *final(self) == *final(r),
    {
        self.0.thread_padding = padding;
        self
    }

    /// Sets how the thread is named.
    pub fn set_thread_mode(&mut self, mode: ThreadLogMode) -> (r: &mut ConfigBuilder)
        ensures
            r.0 == (Config { thread_log_mode: mode, ..old(self).0 }),
            *final(self) == *final(r),
    {
        self.0.thread_log_mode = mode;
        self
    }

    /// Sets the colour the level `level` is printed in; `None` is the default foreground.
    pub fn set_level_color(&mut self, level: Level, color: Option<Color>) -> (r: &mut ConfigBuilder)
        ensures
            r.0.level_color@ == old(self).0.level_color@.update(level_slot(level), color),
            r.0 == (Config { level_color: r.0.level_color, ..old(self).0 }),
            *final(self) == *final(r),
    {
        self.0.level_color[slot_of(level)] = color;
        self
    }

    /// Sets the strftime format of the time.
    pub fn set_time_format_str(&mut self, time_format: &'static str) -> (r: &mut ConfigBuilder)
        ensures
            r.0.time_format@ == time_format@,
            r.0 == (Config { time_format: r.0.time_format, ..old(self).0 }),
            *final(self) == *final(r),
    {
        self.0.time_format = time_format.to_owned();
        self
    }

    /// Sets the strftime format of the time.
    pub fn set_time_format(&mut self, time_format: String) -> (r: &mut ConfigBuilder)
        ensures
            r.0 == (Config { time_format, ..old(self).0 }),
            *final(self) == *final(r),
    {
        self.0.time_format = time_format;
        self
    }

    /// Sets the offset from UTC of the time, in seconds east: less than a day either way.
    pub fn set_time_offset(&mut self, time_offset: i32) -> (r: &mut ConfigBuilder)
        requires
            -86_400 < time_offset < 86_400,
        ensures
            r.0 == (Config { time_offset, ..old(self).0 }),
            *final(self) == *final(r),
    {
        self.0.time_offset = time_offset;
        self
    }

    /// Sets whether the time is local rather than UTC.
    pub fn set_time_to_local(&mut self, local: bool) -> (r: &mut ConfigBuilder)
        ensures
            r.0 == (Config { time_local: local, ..old(self).0 }),
            *final(self) == *final(r),
    {
        self.0.time_local = local;
        self
    }

    /// Adds a module prefix to let through.
    pub fn add_filter_allow_str(&mut self, filter_allow: &'static str) -> (r: &mut ConfigBuilder)
        ensures
            r.0.filter_allow@.len() == old(self).0.filter_allow@.len() + 1,
            r.0.filter_allow@.drop_last() == old(self).0.filter_allow@,
            r.0.filter_allow@.last()@ == filter_allow@,
            r.0 == (Config { filter_allow: r.0.filter_allow, ..old(self).0 }),
            *final(self) == *final(r),
    {
        self.0.filter_allow.push(filter_allow.to_owned());
        assert(self.0.filter_allow@.drop_last() =~= old(self).0.filter_allow@);
        self
    }

    /// Adds a module prefix to let through.
    pub fn add_filter_allow(&mut self, filter_allow: String) -> (r: &mut ConfigBuilder)
        ensures
            r.0.filter_allow@ == old(self).0.filter_allow@.push(filter_allow),
            r.0 == (Config { filter_allow: r.0.filter_allow, ..old(self).0 }),
            *final(self) == *final(r),
    {
        self.0.filter_allow.push(filter_allow);
        self
    }

    /// Removes every module prefix to let through, so nothing is filtered out.
    pub fn clear_filter_allow(&mut self) -> (r: &mut ConfigBuilder)
        ensures
            r.0.filter_allow@.len() == 0,
            r.0 == (Config { filter_allow: r.0.filter_allow, ..old(self).0 }),
            *final(self) == *final(r),
    {
        self.0.filter_allow = Vec::new();
        self
    }

    /// Adds a module prefix to ignore.
    pub fn add_filter_ignore_str(&mut self, filter_ignore: &'static str) -> (r: &mut ConfigBuilder)
        ensures
            r.0.filter_ignore@.len() == old(self).0.filter_ignore@.len() + 1,
            r.0.filter_ignore@.drop_last() == old(self).0.filter_ignore@,
            r.0.filter_ignore@.last()@ == filter_ignore@,
            r.0 == (Config { filter_ignore: r.0.filter_ignore, ..old(self).0 }),
            *final(self) == *final(r),
    {
        self.0.filter_ignore.push(filter_ignore.to_owned());
        assert(self.0.filter_ignore@.drop_last() =~= old(self).0.filter_ignore@);
        self
    }

    /// Adds a module prefix to ignore.
    pub fn add_filter_ignore(&mut self, filter_ignore: String) -> (r: &mut ConfigBuilder)
        ensures
            r.0.filter_ignore@ == old(self).0.filter_ignore@.push(filter_ignore),
            r.0 == (Config { filter_ignore: r.0.filter_ignore, ..old(self).0 }),
            *final(self) == *final(r),
    {
        self.0.filter_ignore.push(filter_ignore);
        self
    }

    /// Removes every module prefix to ignore.
    pub fn clear_filter_ignore(&mut self) -> (r: &mut ConfigBuilder)
        ensures
            r.0.filter_ignore@.len() == 0,
            r.0 == (Config { filter_ignore: r.0.filter_ignore, ..old(self).0 }),
            *final(self) == *final(r),
    {
        self.0.filter_ignore = Vec::new();
        self
    }

    /// A `Config` with the settings built so far.
    pub fn build(&mut self) -> (c: Config)
        ensures
            c.same_as(&old(self).0),
            *final(self) == *old(self),
    {
        copy_config(&self.0)
    }
}

} // verus!
