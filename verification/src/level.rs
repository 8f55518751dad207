//! The verbosity level of an event, as a plain value of this library.
use vstd::prelude::*;

verus! {

#[verifier::external_type_specification]
#[verifier::external_body]
pub struct ExLevel(tracing::Level);

/// The label that `tracing::Level::as_str` gives a level.
pub uninterp spec fn level_label(level: tracing::Level) -> Seq<char>;

/// `tracing::Level::as_str`: the level's label, which is one of the five
/// labels `TRACE`, `DEBUG`, `INFO`, `WARN` and `ERROR`, each the label of
/// exactly one level.
#[verifier::external_body]
pub fn level_as_str(level: &tracing::Level) -> (s: &'static str)
    ensures
        s@ == level_label(*level),
        is_level_label(s@),
        forall|l: tracing::Level| #[trigger] level_label(l) == s@ ==> l == *level,
{
    level.as_str()
}

pub open spec fn label_trace() -> Seq<char> {
    seq!['T', 'R', 'A', 'C', 'E']
}

pub open spec fn label_debug() -> Seq<char> {
    seq!['D', 'E', 'B', 'U', 'G']
}

pub open spec fn label_info() -> Seq<char> {
    seq!['I', 'N', 'F', 'O']
}

pub open spec fn label_warn() -> Seq<char> {
    seq!['W', 'A', 'R', 'N']
}

pub open spec fn label_error() -> Seq<char> {
    seq!['E', 'R', 'R', 'O', 'R']
}

/// The five labels of the levels.
pub open spec fn is_level_label(s: Seq<char>) -> bool {
    ||| s == label_trace()
    ||| s == label_debug()
    ||| s == label_info()
    ||| s == label_warn()
    ||| s == label_error()
}

/// Same as `tracing::Level`, but a plain value that can be serialized.
#[derive(Copy, Clone, Debug, Hash, PartialEq, Eq, Structural)]
pub enum TracingLevel {
    Trace,
    Debug,
    Info,
    Warn,
    Error,
}

impl TracingLevel {
    /// The label of the level, as `tracing` writes it.
    pub open spec fn label(self) -> Seq<char> {
        match self {
            TracingLevel::Trace => label_trace(),
            TracingLevel::Debug => label_debug(),
            TracingLevel::Info => label_info(),
            TracingLevel::Warn => label_warn(),
            TracingLevel::Error => label_error(),
        }
    }

    /// The level whose label is `s`, if there is one.
    pub open spec fn from_label_spec(s: Seq<char>) -> Option<TracingLevel> {
        if s == label_trace() {
            Some(TracingLevel::Trace)
        } else if s == label_debug() {
            Some(TracingLevel::Debug)
        } else if s == label_info() {
            Some(TracingLevel::Info)
        } else if s == label_warn() {
            Some(TracingLevel::Warn)
        } else if s == label_error() {
            Some(TracingLevel::Error)
        } else {
            None
        }
    }

    /// The label of the level: `TRACE`, `DEBUG`, `INFO`, `WARN` or `ERROR`.
    pub fn as_ref(&self) -> (s: &'static str)
        ensures
            s@ == self.label(),
    {
        match self {
            TracingLevel::Trace => {
                proof {
                    reveal_strlit("TRACE");
                    assert("TRACE"@ =~= label_trace());
                }
                "TRACE"
            },
            TracingLevel::Debug => {
                proof {
                    reveal_strlit("DEBUG");
                    assert("DEBUG"@ =~= label_debug());
                }
                "DEBUG"
            },
            TracingLevel::Info => {
                proof {
                    reveal_strlit("INFO");
                    assert("INFO"@ =~= label_info());
                }
                "INFO"
            },
            TracingLevel::Warn => {
                proof {
                    reveal_strlit("WARN");
                    assert("WARN"@ =~= label_warn());
                }
                "WARN"
            },
            TracingLevel::Error => {
                proof {
                    reveal_strlit("ERROR");
                    assert("ERROR"@ =~= label_error());
                }
                "ERROR"
            },
        }
    }

    /// The label of the level as an owned string, as it is displayed.
    pub fn to_string(&self) -> (s: String)
        ensures
            s@ == self.label(),
    {
        String::from_str(self.as_ref())
    }

    /// The level whose label is `s`; `None` when `s` is no level's label.
    pub fn from_label(s: &str) -> (r: Option<TracingLevel>)
        ensures
            r == Self::from_label_spec(s@),
    {
        proof {
            reveal_strlit("TRACE");
            reveal_strlit("DEBUG");
            reveal_strlit("INFO");
            reveal_strlit("WARN");
            reveal_strlit("ERROR");
            assert("TRACE"@ =~= label_trace());
            assert("DEBUG"@ =~= label_debug());
            assert("INFO"@ =~= label_info());
            assert("WARN"@ =~= label_warn());
            assert("ERROR"@ =~= label_error());
        }
        if str_equal(s, "TRACE") {
            Some(TracingLevel::Trace)
        } else if str_equal(s, "DEBUG") {
            Some(TracingLevel::Debug)
        } else if str_equal(s, "INFO") {
            Some(TracingLevel::Info)
        } else if str_equal(s, "WARN") {
            Some(TracingLevel::Warn)
        } else if str_equal(s, "ERROR") {
            Some(TracingLevel::Error)
        } else {
            None
        }
    }

    /// The level of this library that has the same label as `level`.
    pub fn from_level(level: &tracing::Level) -> (r: TracingLevel)
        ensures
            r.label() == level_label(*level),
            forall|l: tracing::Level| #[trigger] level_label(l) == r.label() ==> l == *level,
    {
        let s = level_as_str(level);
        match Self::from_label(s) {
            Some(r) => r,
            None => {
                proof {
                    assert(false);
                }
                TracingLevel::Error
            },
        }
    }
}

impl<'a> From<&'a tracing::Level> for TracingLevel {
    /// The level of this library that has the same label as `value`.
    fn from(value: &'a tracing::Level) -> (r: Self)
        ensures
            r.label() == level_label(*value),
            forall|l: tracing::Level| #[trigger] level_label(l) == r.label() ==> l == *value,
    {
        let r = Self::from_level(value);
        proof {
            lemma_label_injective(r, Self::from_label_spec(level_label(*value)).unwrap());
        }
        r
    }
}

impl<'a> vstd::std_specs::convert::FromSpecImpl<&'a tracing::Level> for TracingLevel {
    open spec fn obeys_from_spec() -> bool {
        true
    }

    open spec fn from_spec(v: &'a tracing::Level) -> Self {
        Self::from_label_spec(level_label(*v)).unwrap()
    }
}

/// Two levels with the same label are the same level.
pub proof fn lemma_label_injective(a: TracingLevel, b: TracingLevel)
    requires
        a.label() == b.label(),
    ensures
        a == b,
{
    lemma_labels_differ();
}

/// A level's label leads back to the level, and no two of the five labels
/// are the same.
pub proof fn lemma_label_round_trip(l: TracingLevel)
    ensures
        TracingLevel::from_label_spec(l.label()) == Some(l),
        is_level_label(l.label()),
{
    lemma_labels_differ();
}

proof fn lemma_labels_differ()
    ensures
        label_trace() != label_debug(),
        label_trace() != label_info(),
        label_trace() != label_warn(),
        label_trace() != label_error(),
        label_debug() != label_info(),
        label_debug() != label_warn(),
        label_debug() != label_error(),
        label_info() != label_warn(),
        label_info() != label_error(),
        label_warn() != label_error(),
{
    assert(label_trace()[0] != label_debug()[0]);
    assert(label_trace()[0] != label_info()[0]);
    assert(label_trace()[0] != label_warn()[0]);
    assert(label_trace()[0] != label_error()[0]);
    assert(label_debug()[0] != label_info()[0]);
    assert(label_debug()[0] != label_warn()[0]);
    assert(label_debug()[0] != label_error()[0]);
    assert(label_info()[0] != label_warn()[0]);
    assert(label_info()[0] != label_error()[0]);
    assert(label_warn()[0] != label_error()[0]);
}

/// Whether two strings hold the same characters.
pub fn str_equal(a: &str, b: &str) -> (r: bool)
    ensures
        r == (a@ == b@),
{
    let n = a.unicode_len();
    if n != b.unicode_len() {
        return false;
    }
    let mut i: usize = 0;
    while i < n
        invariant
            n == a@.len(),
            n == b@.len(),
            i <= n,
            forall|j: int| 0 <= j < i ==> a@[j] == b@[j],
        decreases n - i,
    {
        if a.get_char(i) != b.get_char(i) {
            return false;
        }
        i = i + 1;
    }
    assert(a@ =~= b@);
    true
}

} // verus!
