use vstd::prelude::*;

verus! {

/// The severity tag of a record. The tags are pure labels: no order, no
/// filtering.
#[derive(Clone, Copy, Debug, PartialEq, Eq, Structural)]
pub enum Level {
    Debug,
    Info,
    Warn,
    Event,
    Error,
}

impl Level {
    /// The text that stands between the brackets of a record for this level.
    pub open spec fn tag_text(self) -> Seq<char> {
        match self {
            Level::Debug => seq!['D', 'E', 'B', 'U', 'G'],
            Level::Info => seq!['I', 'N', 'F', 'O'],
            Level::Warn => seq!['W', 'A', 'R', 'N'],
            Level::Event => seq!['E', 'V', 'E', 'N', 'T'],
            Level::Error => seq!['E', 'R', 'R', 'O', 'R'],
        }
    }

    /// The tag of this level, as it appears in the log file.
    pub fn tag(&self) -> (r: &'static str)
        ensures
            r@ == self.tag_text(),
    {
        match self {
            Level::Debug => {
                proof { reveal_strlit("DEBUG"); }
                "DEBUG"
            },
            Level::Info => {
                proof { reveal_strlit("INFO"); }
                "INFO"
            },
            Level::Warn => {
                proof { reveal_strlit("WARN"); }
                "WARN"
            },
            Level::Event => {
                proof { reveal_strlit("EVENT"); }
                "EVENT"
            },
            Level::Error => {
                proof { reveal_strlit("ERROR"); }
                "ERROR"
            },
        }
    }
}

/// Every level has its own tag: two levels whose tags agree are the same
/// level, so a record's tag tells which operation wrote it.
pub proof fn lemma_tag_identifies_level(a: Level, b: Level)
    ensures
        a.tag_text() == b.tag_text() <==> a == b,
{
    if a.tag_text() == b.tag_text() && a != b {
        assert(a.tag_text()[0] == b.tag_text()[0]);
        assert(a.tag_text().len() == b.tag_text().len());
        assert(a.tag_text()[1] == b.tag_text()[1]);
    }
}

} // verus!
