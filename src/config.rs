//! Static tables: the social platforms probed and the named TLD presets.
use vstd::prelude::*;
use crate::text::{lower_of, lowercase, same_text};

verus! {

broadcast use vstd::string::group_string_axioms;

/// A social platform: its name and the profile URL with a `{}` slot for the
/// handle.
#[derive(Debug)]
pub struct SocialPlatform {
    pub name: &'static str,
    pub url_template: &'static str,
}

/// The platforms probed, in the order their results are reported.
pub open spec fn platform_table() -> Seq<(Seq<char>, Seq<char>)> {
    seq![
        ("youtube"@, "https://www.youtube.com/@{}"@),
        ("instagram"@, "https://www.instagram.com/{}"@),
        ("tiktok"@, "https://www.tiktok.com/@{}"@),
    ]
}

/// The character sequences held by a list of strings.
pub open spec fn views(v: Seq<String>) -> Seq<Seq<char>> {
    v.map_values(|s: String| s@)
}

pub open spec fn startup_tlds() -> Seq<Seq<char>> {
    seq!["com"@, "org"@, "io"@, "ai"@, "tech"@, "app"@, "dev"@, "xyz"@]
}

pub open spec fn enterprise_tlds() -> Seq<Seq<char>> {
    seq!["com"@, "org"@, "net"@, "info"@, "biz"@, "us"@]
}

pub open spec fn country_tlds() -> Seq<Seq<char>> {
    seq!["us"@, "uk"@, "de"@, "fr"@, "ca"@, "au"@, "jp"@, "br"@, "in"@]
}

/// The TLDs of the preset with the (already lower-cased) name `name`; an
/// unknown name gets the `startup` set.
pub open spec fn preset_tlds(name: Seq<char>) -> Seq<Seq<char>> {
    if name == "enterprise"@ {
        enterprise_tlds()
    } else if name == "country"@ {
        country_tlds()
    } else {
        startup_tlds()
    }
}

/// `template` with every `{}` replaced by `handle`, read left to right.
pub open spec fn fill_slots(template: Seq<char>, handle: Seq<char>) -> Seq<char>
    decreases template.len(),
{
    if template.len() < 2 {
        template
    } else if template[0] == '{' && template[1] == '}' {
        handle + fill_slots(template.skip(2), handle)
    } else {
        seq![template[0]] + fill_slots(template.skip(1), handle)
    }
}

/// The platforms probed, in reporting order.
pub fn social_platforms() -> (v: Vec<SocialPlatform>)
    ensures
        v@.len() == platform_table().len(),
        forall|i: int|
            0 <= i < v@.len() ==> (#[trigger] v@[i].name@, v@[i].url_template@)
                == platform_table()[i],
{
    let v = vec![
        SocialPlatform { name: "youtube", url_template: "https://www.youtube.com/@{}" },
        SocialPlatform { name: "instagram", url_template: "https://www.instagram.com/{}" },
        SocialPlatform { name: "tiktok", url_template: "https://www.tiktok.com/@{}" },
    ];
    v
}

/// Owned copies of a list of string literals.
fn owned(items: Vec<&'static str>) -> (r: Vec<String>)
    ensures
        views(r@) == items@.map_values(|s: &str| s@),
{
    let mut r: Vec<String> = Vec::new();
    let mut i: usize = 0;
    while i < items.len()
        invariant
            i <= items.len(),
            views(r@) == items@.take(i as int).map_values(|s: &str| s@),
        decreases items.len() - i,
    {
        let ghost before = r@;
        r.push(String::from_str(items[i]));
        proof {
            assert(items@.take(i + 1) =~= items@.take(i as int).push(items@[i as int]));
            assert(views(r@) =~= views(before).push(items@[i as int]@));
        }
        i = i + 1;
    }
    proof {
        assert(items@.take(items.len() as int) =~= items@);
    }
    r
}

/// The TLDs of the preset named `name`, which is compared as given.
pub fn tlds_for_preset(name: &str) -> (r: Vec<String>)
    ensures
        views(r@) == preset_tlds(name@),
{
    if same_text(name, "enterprise") {
        let r = owned(vec!["com", "org", "net", "info", "biz", "us"]);
        assert(views(r@) =~= enterprise_tlds());
        r
    } else if same_text(name, "country") {
        let r = owned(vec!["us", "uk", "de", "fr", "ca", "au", "jp", "br", "in"]);
        assert(views(r@) =~= country_tlds());
        r
    } else {
        let r = owned(vec!["com", "org", "io", "ai", "tech", "app", "dev", "xyz"]);
        assert(views(r@) =~= startup_tlds());
        r
    }
}

/// The TLDs of a preset, its name compared without regard to case.
pub fn get_preset_tlds(preset: &str) -> (r: Vec<String>)
    ensures
        views(r@) == preset_tlds(lower_of(preset@)),
{
    let name = lowercase(preset);
    tlds_for_preset(name.as_str())
}

/// A profile URL: `template` with each `{}` replaced by `handle`.
pub fn fill_template(template: &str, handle: &str) -> (r: String)
    ensures
        r@ == fill_slots(template@, handle@),
{
    let t = crate::text::chars_of(template);
    let n = t.len();
    let mut r = String::new();
    let mut i: usize = 0;
    proof {
        assert(template@.skip(0) =~= template@);
        assert(r@ + fill_slots(template@, handle@) =~= fill_slots(template@, handle@));
    }
    while n - i >= 2
        invariant
            t@ == template@,
            n == t@.len(),
            i <= n,
            r@ + fill_slots(template@.skip(i as int), handle@) == fill_slots(template@, handle@),
        decreases n - i,
    {
        let rest = Ghost(template@.skip(i as int));
        if t[i] == '{' && t[i + 1] == '}' {
            proof {
                assert(rest@.skip(2) =~= template@.skip(i + 2));
                assert(r@ + handle@ + fill_slots(rest@.skip(2), handle@) =~= r@ + (handle@
                    + fill_slots(rest@.skip(2), handle@)));
            }
            r.append(handle);
            i = i + 2;
        } else {
            let piece = template.substring_char(i, i + 1);
            proof {
                assert(rest@.skip(1) =~= template@.skip(i + 1));
                assert(piece@ =~= seq![rest@[0]]);
                assert(r@ + piece@ + fill_slots(rest@.skip(1), handle@) =~= r@ + (seq![rest@[0]]
                    + fill_slots(rest@.skip(1), handle@)));
            }
            r.append(piece);
            i = i + 1;
        }
    }
    let tail = template.substring_char(i, n);
    proof {
        assert(tail@ =~= template@.skip(i as int));
    }
    r.append(tail);
    r
}

} // verus!
