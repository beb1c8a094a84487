//! Domain candidates: which TLDs to try, the names to look up, and what a
//! lookup's answer means.
use vstd::prelude::*;
use crate::config::{get_preset_tlds, preset_tlds, views};
use crate::social::SocialStatus;
use crate::text::{chars_of, is_whitespace, joined, lower_of, whitespace};

verus! {

broadcast use vstd::string::group_string_axioms;

/// The answer for one candidate domain: `Some(true)` available, `Some(false)`
/// taken, `None` unknown.
#[derive(Debug, Clone)]
pub struct DomainResult {
    pub domain: String,
    pub available: Option<bool>,
}

/// `s` cut at every `sep`, as `str::split` does: `n` separators give `n + 1`
/// pieces, some of them possibly empty.
pub open spec fn split_on(s: Seq<char>, sep: char) -> Seq<Seq<char>>
    decreases s.len(),
{
    if s.len() == 0 {
        seq![Seq::empty()]
    } else {
        let rest = split_on(s.drop_last(), sep);
        if s.last() == sep {
            rest.push(Seq::empty())
        } else {
            rest.update(rest.len() - 1, rest.last().push(s.last()))
        }
    }
}

/// `s` without its leading whitespace.
pub open spec fn trim_start(s: Seq<char>) -> Seq<char>
    decreases s.len(),
{
    if s.len() > 0 && whitespace(s[0]) {
        trim_start(s.drop_first())
    } else {
        s
    }
}

/// `s` without its trailing whitespace.
pub open spec fn trim_end(s: Seq<char>) -> Seq<char>
    decreases s.len(),
{
    if s.len() > 0 && whitespace(s.last()) {
        trim_end(s.drop_last())
    } else {
        s
    }
}

/// `s` without whitespace at either end.
pub open spec fn trimmed(s: Seq<char>) -> Seq<char> {
    trim_end(trim_start(s))
}

/// The TLDs of a comma-separated list, each stripped of surrounding
/// whitespace.
pub open spec fn custom_tlds(list: Seq<char>) -> Seq<Seq<char>> {
    split_on(list, ',').map_values(|piece: Seq<char>| trimmed(piece))
}

/// The TLDs to try: the custom list where one is given, else the preset's.
pub open spec fn chosen_tlds(preset: Seq<char>, custom: Option<Seq<char>>) -> Seq<Seq<char>> {
    match custom {
        Some(list) => custom_tlds(list),
        None => preset_tlds(lower_of(preset)),
    }
}

/// The domain `handle.tld`.
pub open spec fn domain_name(handle: Seq<char>, tld: Seq<char>) -> Seq<char> {
    handle + seq!['.'] + tld
}

/// The verdict that a lookup's answer stands for.
pub open spec fn lookup_verdict(available: Option<bool>) -> SocialStatus {
    match available {
        Some(true) => SocialStatus::Available,
        Some(false) => SocialStatus::Taken,
        None => SocialStatus::Unknown,
    }
}

/// Characters `from..to` of `s` (whose characters are `v`), trimmed.
fn trimmed_piece(s: &str, v: &Vec<char>, from: usize, to: usize) -> (r: String)
    requires
        v@ == s@,
        from <= to <= v@.len(),
    ensures
        r@ == trimmed(s@.subrange(from as int, to as int)),
{
    let mut a = from;
    while a < to && is_whitespace(v[a])
        invariant
            v@ == s@,
            from <= a <= to <= v@.len(),
            trim_start(s@.subrange(from as int, to as int)) == trim_start(
                s@.subrange(a as int, to as int),
            ),
        decreases to - a,
    {
        proof {
            assert(s@.subrange(a as int, to as int).drop_first() =~= s@.subrange(a + 1, to as int));
        }
        a = a + 1;
    }
    proof {
        assert(trim_start(s@.subrange(a as int, to as int)) == s@.subrange(a as int, to as int));
    }
    let mut b = to;
    while b > a && is_whitespace(v[b - 1])
        invariant
            v@ == s@,
            from <= a <= b <= to <= v@.len(),
            trimmed(s@.subrange(from as int, to as int)) == trim_end(
                s@.subrange(a as int, b as int),
            ),
        decreases b - a,
    {
        proof {
            assert(s@.subrange(a as int, b as int).drop_last() =~= s@.subrange(a as int, b - 1));
        }
        b = b - 1;
    }
    let piece = s.substring_char(a, b);
    String::from_str(piece)
}

/// The TLDs of a comma-separated list such as `"com, org,io"`.
pub fn split_custom_tlds(list: &str) -> (r: Vec<String>)
    ensures
        views(r@) == custom_tlds(list@),
{
    let v = chars_of(list);
    let n = v.len();
    let mut out: Vec<String> = Vec::new();
    let ghost mut raw: Seq<Seq<char>> = Seq::empty();
    let mut start: usize = 0;
    let mut i: usize = 0;
    proof {
        assert(list@.take(0) =~= Seq::<char>::empty());
        assert(list@.subrange(0, 0) =~= Seq::<char>::empty());
        assert(split_on(list@.take(0), ',') =~= raw.push(list@.subrange(0, 0)));
    }
    while i < n
        invariant
            v@ == list@,
            n == v@.len(),
            start <= i <= n,
            split_on(list@.take(i as int), ',') == raw.push(list@.subrange(start as int, i as int)),
            views(out@) == raw.map_values(|piece: Seq<char>| trimmed(piece)),
        decreases n - i,
    {
        proof {
            assert(list@.take(i + 1).drop_last() =~= list@.take(i as int));
            assert(list@.take(i + 1).last() == v@[i as int]);
        }
        if v[i] == ',' {
            let piece = trimmed_piece(list, &v, start, i);
            let ghost before = out@;
            out.push(piece);
            proof {
                let done = raw.push(list@.subrange(start as int, i as int));
                assert(views(out@) =~= views(before).push(piece@));
                assert(views(out@) =~= done.map_values(|piece: Seq<char>| trimmed(piece)));
                assert(list@.subrange(i + 1, i + 1) =~= Seq::<char>::empty());
                raw = done;
            }
            start = i + 1;
        } else {
            proof {
                assert(list@.subrange(start as int, i as int).push(v@[i as int]) =~= list@.subrange(
                    start as int,
                    i + 1,
                ));
                assert(raw.push(list@.subrange(start as int, i as int)).update(
                    raw.len() as int,
                    list@.subrange(start as int, i + 1),
                ) =~= raw.push(list@.subrange(start as int, i + 1)));
            }
        }
        i = i + 1;
    }
    proof {
        assert(list@.take(n as int) =~= list@);
    }
    let last = trimmed_piece(list, &v, start, n);
    let ghost before = out@;
    out.push(last);
    proof {
        let done = raw.push(list@.subrange(start as int, n as int));
        assert(views(out@) =~= views(before).push(last@));
        assert(views(out@) =~= done.map_values(|piece: Seq<char>| trimmed(piece)));
    }
    out
}

/// The TLDs to try for a preset name and an optional custom list; the custom
/// list, where given, replaces the preset entirely.
pub fn tld_list(preset: &str, custom: Option<&str>) -> (r: Vec<String>)
    ensures
        views(r@) == chosen_tlds(
            preset@,
            match custom {
                Some(list) => Some(list@),
                None => None,
            },
        ),
{
    match custom {
        Some(list) => split_custom_tlds(list),
        None => get_preset_tlds(preset),
    }
}

/// One candidate domain per TLD, `handle.tld`, in TLD order.
pub fn domain_candidates(handle: &str, tlds: &Vec<String>) -> (r: Vec<String>)
    ensures
        r@.len() == tlds@.len(),
        forall|i: int| 0 <= i < r@.len() ==> (#[trigger] r@[i])@ == domain_name(handle@, tlds@[i]@),
{
    let mut r: Vec<String> = Vec::new();
    let stem = joined(handle, ".");
    proof {
        reveal_strlit(".");
    }
    let mut i: usize = 0;
    while i < tlds.len()
        invariant
            stem@ == handle@ + seq!['.'],
            i <= tlds@.len(),
            r@.len() == i,
            forall|j: int| 0 <= j < i ==> (#[trigger] r@[j])@ == domain_name(handle@, tlds@[j]@),
        decreases tlds.len() - i,
    {
        r.push(joined(stem.as_str(), tlds[i].as_str()));
        i = i + 1;
    }
    r
}

impl DomainResult {
    /// The result for `domain` from a lookup that either answered (`Ok`) or
    /// failed (`Err`); a failed lookup leaves the availability unknown.
    pub fn from_lookup(domain: String, lookup: Result<Option<bool>, ()>) -> (r: DomainResult)
        ensures
            r.domain@ == domain@,
            r.available == match lookup {
                Ok(available) => available,
                Err(_) => None,
            },
    {
        let available = match lookup {
            Ok(available) => available,
            Err(_) => None,
        };
        DomainResult { domain, available }
    }

    /// The verdict this result stands for.
    pub fn verdict(&self) -> (v: SocialStatus)
        ensures
            v == lookup_verdict(self.available),
    {
        match self.available {
            Some(true) => SocialStatus::Available,
            Some(false) => SocialStatus::Taken,
            None => SocialStatus::Unknown,
        }
    }
}

} // verus!
