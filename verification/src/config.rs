//! Configuration: the server address and the mapping from named UI roles
//! to terminal color indices.
//!
//! Every role has a baked-in default color; a user table may override any
//! of them. Looking up a name outside the role set is a programming
//! error, not a runtime condition, so the lookup demands a known role and
//! in exchange always produces a color.

use vstd::prelude::*;

use crate::text::str_eq;

verus! {

/// The UI roles that carry a configurable color.
pub open spec fn is_color_role(name: Seq<char>) -> bool {
    ||| name == "Banner"@
    ||| name == "PlayerName"@
    ||| name == "PlayingIndicator"@
    ||| name == "PausedIndicator"@
    ||| name == "StoppedIndicator"@
    ||| name == "RepeatIndicator"@
    ||| name == "ShuffleIndicator"@
    ||| name == "TrackIndex"@
    ||| name == "TrackTitle"@
    ||| name == "TrackArtist"@
    ||| name == "TrackAlbum"@
    ||| name == "TrackDuration"@
    ||| name == "PlaybarGauge"@
}

/// The color of the first entry named `name`, if any.
pub open spec fn spec_color_lookup(entries: Seq<(String, u8)>, name: Seq<char>) -> Option<u8>
    decreases entries.len(),
{
    if entries.len() == 0 {
        None
    } else if entries[0].0@ == name {
        Some(entries[0].1)
    } else {
        spec_color_lookup(entries.subrange(1, entries.len() as int), name)
    }
}

proof fn lemma_color_lookup_at(entries: Seq<(String, u8)>, name: Seq<char>, i: int)
    requires
        0 <= i < entries.len(),
        forall|j: int| 0 <= j < i ==> entries[j].0@ != name,
        entries[i].0@ == name,
    ensures
        spec_color_lookup(entries, name) == Some(entries[i].1),
    decreases i,
{
    if i > 0 {
        let tail = entries.subrange(1, entries.len() as int);
        assert(tail[i - 1] == entries[i]);
        assert(forall|j: int| 0 <= j < i - 1 ==> tail[j] == entries[j + 1]);
        lemma_color_lookup_at(tail, name, i - 1);
    }
}

proof fn lemma_color_lookup_none(entries: Seq<(String, u8)>, name: Seq<char>)
    requires
        forall|j: int| 0 <= j < entries.len() ==> entries[j].0@ != name,
    ensures
        spec_color_lookup(entries, name) is None,
    decreases entries.len(),
{
    if entries.len() > 0 {
        let tail = entries.subrange(1, entries.len() as int);
        assert(forall|j: int| 0 <= j < tail.len() ==> tail[j] == entries[j + 1]);
        lemma_color_lookup_none(tail, name);
    }
}

/// The shape of the baked-in table: all thirteen roles, in order, with
/// their out-of-the-box colors.
pub open spec fn is_default_color_table(t: Seq<(String, u8)>) -> bool {
    &&& t.len() == 13
    &&& t[0].0@ == "Banner"@ && t[0].1 == 2
    &&& t[1].0@ == "PlayerName"@ && t[1].1 == 1
    &&& t[2].0@ == "PlayingIndicator"@ && t[2].1 == 2
    &&& t[3].0@ == "PausedIndicator"@ && t[3].1 == 3
    &&& t[4].0@ == "StoppedIndicator"@ && t[4].1 == 1
    &&& t[5].0@ == "RepeatIndicator"@ && t[5].1 == 5
    &&& t[6].0@ == "ShuffleIndicator"@ && t[6].1 == 6
    &&& t[7].0@ == "TrackIndex"@ && t[7].1 == 5
    &&& t[8].0@ == "TrackTitle"@ && t[8].1 == 3
    &&& t[9].0@ == "TrackArtist"@ && t[9].1 == 4
    &&& t[10].0@ == "TrackAlbum"@ && t[10].1 == 1
    &&& t[11].0@ == "TrackDuration"@ && t[11].1 == 6
    &&& t[12].0@ == "PlaybarGauge"@ && t[12].1 == 2
}

/// The server address and the color tables.
#[derive(Clone, Debug)]
pub struct Config {
    pub lms_ip: String,
    pub lms_port: String,
    /// The table consulted first; user overrides live here.
    pub colors: Vec<(String, u8)>,
    /// The baked-in fallback; holds every role.
    pub default_colors: Vec<(String, u8)>,
}

impl Config {
    /// The baked-in fallback table.
    pub open spec fn fallback_table(self) -> Seq<(String, u8)> {
        self.default_colors@
    }

    /// What the fallback table answers for a role name.
    pub open spec fn fallback_color(self, name: Seq<char>) -> Option<u8> {
        spec_color_lookup(self.fallback_table(), name)
    }

    /// A configuration is usable when its fallback table covers every
    /// role, so that a lookup of a known role can never come up empty.
    pub open spec fn wf(self) -> bool {
        forall|name: Seq<char>| #[trigger]
            is_color_role(name) ==> exists|i: int|
                0 <= i < self.fallback_table().len() && self.fallback_table()[i].0@ == name
    }

    /// The baked-in color of every role.
    pub fn default_colors() -> (v: Vec<(String, u8)>)
        ensures
            is_default_color_table(v@),
    {
        let mut v: Vec<(String, u8)> = Vec::new();
        v.push(("Banner".to_owned(), 2));
        v.push(("PlayerName".to_owned(), 1));
        v.push(("PlayingIndicator".to_owned(), 2));
        v.push(("PausedIndicator".to_owned(), 3));
        v.push(("StoppedIndicator".to_owned(), 1));
        v.push(("RepeatIndicator".to_owned(), 5));
        v.push(("ShuffleIndicator".to_owned(), 6));
        v.push(("TrackIndex".to_owned(), 5));
        v.push(("TrackTitle".to_owned(), 3));
        v.push(("TrackArtist".to_owned(), 4));
        v.push(("TrackAlbum".to_owned(), 1));
        v.push(("TrackDuration".to_owned(), 6));
        v.push(("PlaybarGauge".to_owned(), 2));
        v
    }

    /// Builds a configuration around a user color table, with the
    /// baked-in table standing behind it.
    pub fn from_parts(lms_ip: String, lms_port: String, colors: Vec<(String, u8)>) -> (c: Config)
        ensures
            c.wf(),
            c.lms_ip == lms_ip,
            c.lms_port == lms_port,
            c.colors == colors,
            is_default_color_table(c.fallback_table()),
    {
        let c = Config { lms_ip, lms_port, colors, default_colors: Config::default_colors() };
        proof {
            assert forall|name: Seq<char>| #[trigger] is_color_role(name) implies exists|i: int|
                0 <= i < c.fallback_table().len() && c.fallback_table()[i].0@ == name by {
                if name == "Banner"@ {
                    assert(c.fallback_table()[0].0@ == name);
                } else if name == "PlayerName"@ {
                    assert(c.fallback_table()[1].0@ == name);
                } else if name == "PlayingIndicator"@ {
                    assert(c.fallback_table()[2].0@ == name);
                } else if name == "PausedIndicator"@ {
                    assert(c.fallback_table()[3].0@ == name);
                } else if name == "StoppedIndicator"@ {
                    assert(c.fallback_table()[4].0@ == name);
                } else if name == "RepeatIndicator"@ {
                    assert(c.fallback_table()[5].0@ == name);
                } else if name == "ShuffleIndicator"@ {
                    assert(c.fallback_table()[6].0@ == name);
                } else if name == "TrackIndex"@ {
                    assert(c.fallback_table()[7].0@ == name);
                } else if name == "TrackTitle"@ {
                    assert(c.fallback_table()[8].0@ == name);
                } else if name == "TrackArtist"@ {
                    assert(c.fallback_table()[9].0@ == name);
                } else if name == "TrackAlbum"@ {
                    assert(c.fallback_table()[10].0@ == name);
                } else if name == "TrackDuration"@ {
                    assert(c.fallback_table()[11].0@ == name);
                } else {
                    assert(c.fallback_table()[12].0@ == name);
                }
            }
        }
        c
    }

    /// The out-of-the-box configuration: the local server and the baked-in
    /// colors for both tables.
    pub fn default() -> (c: Config)
        ensures
            c.wf(),
            c.lms_ip@ == "127.0.0.1"@,
            c.lms_port@ == "9000"@,
            is_default_color_table(c.colors@),
            is_default_color_table(c.fallback_table()),
    {
        Config::from_parts("127.0.0.1".to_owned(), "9000".to_owned(), Config::default_colors())
    }

    /// The color for a role: the user table first, else the baked-in one.
    pub fn color(&self, name: &str) -> (r: u8)
        requires
            self.wf(),
            is_color_role(name@),
        ensures
            match spec_color_lookup(self.colors@, name@) {
                Some(c) => r == c,
                None => self.fallback_color(name@) == Some(r),
            },
    {
        let n = self.colors.len();
        let mut i: usize = 0;
        while i < n
            invariant
                i <= n,
                n == self.colors@.len(),
                forall|j: int| 0 <= j < i ==> self.colors@[j].0@ != name@,
            decreases n - i,
        {
            let entry: &(String, u8) = &self.colors[i];
            if str_eq(entry.0.as_str(), name) {
                proof {
                    lemma_color_lookup_at(self.colors@, name@, i as int);
                }
                return entry.1;
            }
            i = i + 1;
        }
        proof {
            lemma_color_lookup_none(self.colors@, name@);
        }
        self.default_color(name)
    }

    /// The baked-in color for a role; total because `wf` promises the
    /// fallback table covers every role.
    fn default_color(&self, name: &str) -> (r: u8)
        requires
            self.wf(),
            is_color_role(name@),
        ensures
            self.fallback_color(name@) == Some(r),
    {
        let n = self.default_colors.len();
        let mut i: usize = 0;
        while i < n
            invariant
                i <= n,
                n == self.default_colors@.len(),
                forall|j: int| 0 <= j < i ==> self.default_colors@[j].0@ != name@,
            decreases n - i,
        {
            let entry: &(String, u8) = &self.default_colors[i];
            if str_eq(entry.0.as_str(), name) {
                proof {
                    lemma_color_lookup_at(self.default_colors@, name@, i as int);
                }
                return entry.1;
            }
            i = i + 1;
        }
        proof {
            assert(false);
        }
        vstd::pervasive::unreached()
    }
}

} // verus!
