//! Severity levels, their order and their names.
use vstd::prelude::*;
use vstd::string::StrSliceExecFns;

verus! {

/// A log verbosity threshold, from least verbose (`Off`) to most (`Trace`).
#[derive(Clone, Copy, Debug, PartialEq, Eq, Structural, PartialOrd, Ord, Hash)]
pub enum Level {
    Off,
    Error,
    Warn,
    Info,
    Debug,
    Trace,
}

impl Level {
    /// Position in the verbosity order: a greater rank is more verbose.
    pub open spec fn rank(self) -> nat {
        match self {
            Level::Off => 0,
            Level::Error => 1,
            Level::Warn => 2,
            Level::Info => 3,
            Level::Debug => 4,
            Level::Trace => 5,
        }
    }

    /// The name under which the level may be given at run time.
    pub open spec fn name(self) -> Seq<char> {
        match self {
            Level::Off => "OFF"@,
            Level::Error => "ERROR"@,
            Level::Warn => "WARN"@,
            Level::Info => "INFO"@,
            Level::Debug => "DEBUG"@,
            Level::Trace => "TRACE"@,
        }
    }

    /// Position of the level in the verbosity order.
    pub fn verbosity(&self) -> (r: u8)
        ensures
            r as nat == self.rank(),
    {
        match self {
            Level::Off => 0,
            Level::Error => 1,
            Level::Warn => 2,
            Level::Info => 3,
            Level::Debug => 4,
            Level::Trace => 5,
        }
    }

    /// Whether `self` is no more verbose than `other`.
    pub fn at_most(&self, other: &Level) -> (r: bool)
        ensures
            r == (self.rank() <= other.rank()),
    {
        self.verbosity() <= other.verbosity()
    }
}

/// The level whose name is exactly `s` (case-sensitive), if any.
pub open spec fn level_named(s: Seq<char>) -> Option<Level> {
    if s == "OFF"@ {
        Some(Level::Off)
    } else if s == "ERROR"@ {
        Some(Level::Error)
    } else if s == "WARN"@ {
        Some(Level::Warn)
    } else if s == "INFO"@ {
        Some(Level::Info)
    } else if s == "DEBUG"@ {
        Some(Level::Debug)
    } else if s == "TRACE"@ {
        Some(Level::Trace)
    } else {
        None
    }
}

/// Each level's name reads back as that level, and a name read as a level
/// is that level's name.
pub proof fn lemma_name_read_back(l: Level, s: Seq<char>)
    ensures
        level_named(l.name()) == Some(l),
        level_named(s) == Some(l) ==> s == l.name(),
{
    reveal_strlit("OFF");
    reveal_strlit("ERROR");
    reveal_strlit("WARN");
    reveal_strlit("INFO");
    reveal_strlit("DEBUG");
    reveal_strlit("TRACE");
    // The six names differ in their first character.
    assert("OFF"@[0] == 'O');
    assert("ERROR"@[0] == 'E');
    assert("WARN"@[0] == 'W');
    assert("INFO"@[0] == 'I');
    assert("DEBUG"@[0] == 'D');
    assert("TRACE"@[0] == 'T');
}

/// Whether the text `s` is exactly `word`, character for character.
fn same_text(s: &str, word: &str) -> (r: bool)
    ensures
        r == (s@ == word@),
{
    let n = s.unicode_len();
    if n != word.unicode_len() {
        return false;
    }
    let mut i: usize = 0;
    while i < n
        invariant
            n == s@.len(),
            n == word@.len(),
            i <= n,
            s@.subrange(0, i as int) == word@.subrange(0, i as int),
        decreases n - i,
    {
        if s.get_char(i) != word.get_char(i) {
            return false;
        }
        assert(s@.subrange(0, i + 1) =~= s@.subrange(0, i as int).push(s@[i as int]));
        assert(word@.subrange(0, i + 1) =~= word@.subrange(0, i as int).push(word@[i as int]));
        i = i + 1;
    }
    assert(s@ =~= s@.subrange(0, n as int));
    assert(word@ =~= word@.subrange(0, n as int));
    true
}

/// Reads a level name as given at run time: one of `OFF`, `ERROR`, `WARN`,
/// `INFO`, `DEBUG` or `TRACE`, in capitals. Any other text gives `None`.
pub fn log_level_from_str(env_log_level: &str) -> (r: Option<Level>)
    ensures
        r == level_named(env_log_level@),
{
    if same_text(env_log_level, "OFF") {
        Some(Level::Off)
    } else if same_text(env_log_level, "ERROR") {
        Some(Level::Error)
    } else if same_text(env_log_level, "WARN") {
        Some(Level::Warn)
    } else if same_text(env_log_level, "INFO") {
        Some(Level::Info)
    } else if same_text(env_log_level, "DEBUG") {
        Some(Level::Debug)
    } else if same_text(env_log_level, "TRACE") {
        Some(Level::Trace)
    } else {
        None
    }
}

} // verus!
