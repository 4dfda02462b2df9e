//! A plain model of a response's header set: name/value pairs in arrival
//! order, looked up by ASCII case-insensitive name. Callers build it from
//! whatever HTTP client they use.

use vstd::prelude::*;
use crate::text::spec_lower_seq;
use crate::text::spec_find;
use crate::text::spec_trim;
use crate::text::spec_trim_pred;
use crate::text::ascii_eq_ignore_case;
use crate::text::find_char;
use crate::text::trim_by;
use vstd::string::StrSliceExecFns;

verus! {

/// A response's headers as plain text pairs.
pub struct Headers {
    pub entries: Vec<(String, String)>,
}

impl View for Headers {
    type V = Seq<(Seq<char>, Seq<char>)>;

    open spec fn view(&self) -> Seq<(Seq<char>, Seq<char>)> {
        self.entries@.map_values(|p: (String, String)| (p.0@, p.1@))
    }
}

/// The value of the first pair whose name matches ASCII case-insensitively.
pub open spec fn spec_lookup(
    entries: Seq<(Seq<char>, Seq<char>)>,
    name: Seq<char>,
) -> Option<Seq<char>>
    decreases entries.len(),
{
    if entries.len() == 0 {
        None
    } else if spec_lower_seq(entries.first().0) == spec_lower_seq(name) {
        Some(entries.first().1)
    } else {
        spec_lookup(entries.drop_first(), name)
    }
}

proof fn lemma_lookup_at(entries: Seq<(Seq<char>, Seq<char>)>, name: Seq<char>, i: int)
    requires
        0 <= i < entries.len(),
        spec_lower_seq(entries[i].0) == spec_lower_seq(name),
        forall|j: int| 0 <= j < i ==> spec_lower_seq(#[trigger] entries[j].0) != spec_lower_seq(name),
    ensures
        spec_lookup(entries, name) == Some(entries[i].1),
    decreases i,
{
    if i > 0 {
        lemma_lookup_at(entries.drop_first(), name, i - 1);
    }
}

proof fn lemma_lookup_none(entries: Seq<(Seq<char>, Seq<char>)>, name: Seq<char>)
    requires
        forall|j: int|
            0 <= j < entries.len() ==> spec_lower_seq(#[trigger] entries[j].0)
                != spec_lower_seq(name),
    ensures
        spec_lookup(entries, name) is None,
    decreases entries.len(),
{
    if entries.len() > 0 {
        lemma_lookup_none(entries.drop_first(), name);
    }
}

impl Headers {
    /// An empty header set.
    pub fn new() -> (r: Headers)
        ensures
            r@ == Seq::<(Seq<char>, Seq<char>)>::empty(),
    {
        let r = Headers { entries: Vec::new() };
        proof {
            assert(r@ =~= Seq::<(Seq<char>, Seq<char>)>::empty());
        }
        r
    }

    /// Append one name/value pair.
    pub fn push(&mut self, name: String, value: String)
        ensures
            final(self)@ == old(self)@.push((name@, value@)),
    {
        let ghost n = name@;
        let ghost v = value@;
        self.entries.push((name, value));
        proof {
            assert(final(self)@ =~= old(self)@.push((n, v)));
        }
    }

    /// The value of the first header with this name, compared ASCII
    /// case-insensitively.
    pub fn get(&self, name: &str) -> (r: Option<&String>)
        ensures
            r matches Some(v) ==> spec_lookup(self@, name@) == Some(v@),
            r is None ==> spec_lookup(self@, name@) is None,
    {
        let n = self.entries.len();
        let mut i: usize = 0;
        while i < n
            invariant
                0 <= i <= n,
                n == self.entries.len(),
                forall|j: int|
                    0 <= j < i ==> spec_lower_seq(#[trigger] self@[j].0) != spec_lower_seq(name@),
            decreases n - i,
        {
            if ascii_eq_ignore_case(self.entries[i].0.as_str(), name) {
                proof {
                    lemma_lookup_at(self@, name@, i as int);
                }
                return Some(&self.entries[i].1);
            }
            i = i + 1;
        }
        proof {
            lemma_lookup_none(self@, name@);
        }
        None
    }
}

/// What one `Key: Value` line contributes: the parts around the first `:`,
/// each trimmed of whitespace — or nothing when the line has no `:`.
pub open spec fn spec_extra_header(line: Seq<char>) -> Option<(Seq<char>, Seq<char>)> {
    let i = spec_find(line, ':');
    if i == -1 {
        None
    } else {
        Some(
            (
                spec_trim(line.take(i), spec_trim_pred(false)),
                spec_trim(line.skip(i + 1), spec_trim_pred(false)),
            ),
        )
    }
}

/// The pairs a list of `Key: Value` lines contributes, in order, lines
/// without a `:` dropped.
pub open spec fn spec_extra_headers(lines: Seq<Seq<char>>) -> Seq<(Seq<char>, Seq<char>)>
    decreases lines.len(),
{
    if lines.len() == 0 {
        Seq::empty()
    } else {
        spec_extra_headers(lines.drop_last()) + match spec_extra_header(lines.last()) {
            Some(p) => seq![p],
            None => Seq::empty(),
        }
    }
}

/// Parse repeated `Key: Value` lines into header pairs: split each line at
/// its first `:`, trim both sides, drop lines without one.
pub fn parse_extra_headers(v: &[String]) -> (r: Vec<(String, String)>)
    ensures
        r.deep_view() == spec_extra_headers(v.deep_view()),
{
    let n = v.len();
    let mut r: Vec<(String, String)> = Vec::new();
    proof {
        assert(v.deep_view().take(0) =~= Seq::<Seq<char>>::empty());
        assert(r.deep_view() =~= Seq::<(Seq<char>, Seq<char>)>::empty());
    }
    let mut i: usize = 0;
    while i < n
        invariant
            0 <= i <= n,
            n == v@.len(),
            r.deep_view() == spec_extra_headers(v.deep_view().take(i as int)),
        decreases n - i,
    {
        let line = v[i].as_str();
        let len = line.unicode_len();
        let ghost prev = r.deep_view();
        match find_char(line, ':') {
            Some(j) => {
                let key = trim_by(line.substring_char(0, j), false);
                let value = trim_by(line.substring_char(j + 1, len), false);
                proof {
                    assert(line@.subrange(0, j as int) =~= line@.take(j as int));
                    assert(line@.subrange(j + 1, len as int) =~= line@.skip(j + 1));
                }
                r.push((key, value));
            },
            None => {},
        }
        proof {
            assert(v.deep_view().take(i + 1).drop_last() =~= v.deep_view().take(i as int));
            assert(v.deep_view().take(i + 1).last() == v.deep_view()[i as int]);
            assert(v.deep_view()[i as int] == line@);
            match spec_extra_header(line@) {
                Some(p) => {
                    assert(r.deep_view() =~= prev + seq![p]);
                },
                None => {
                    assert(r.deep_view() =~= prev);
                },
            }
        }
        i = i + 1;
    }
    proof {
        assert(v.deep_view().take(n as int) =~= v.deep_view());
    }
    r
}

} // verus!
