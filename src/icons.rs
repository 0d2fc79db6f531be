use vstd::prelude::*;
use vstd::string::*;

verus! {

/// `needle` occurs in `hay` starting at position `i`.
pub open spec fn occurs_at(hay: Seq<char>, needle: Seq<char>, i: int) -> bool {
    0 <= i && i + needle.len() <= hay.len() && hay.subrange(i, i + needle.len()) == needle
}

/// `needle` occurs somewhere in `hay`.
pub open spec fn contains_text(hay: Seq<char>, needle: Seq<char>) -> bool {
    exists|i: int| occurs_at(hay, needle, i)
}

/// The glyph shown for a device whose kind is not recognised.
pub open spec fn unknown_glyph() -> Seq<char> {
    "\u{eb32}"@
}

/// The icon table: a device-kind keyword and the glyph that stands for it.
pub open spec fn icon_table() -> Seq<(Seq<char>, Seq<char>)> {
    seq![
        ("headset"@, "\u{ee59}"@),
        ("headphone"@, "\u{f025}"@),
        ("speaker"@, "\u{f071f}"@),
        ("mouse"@, "\u{efba}"@),
        ("input-gaming"@, "\u{f02b4}"@),
        ("pad"@, "\u{f02b4}"@),
        ("controller"@, "\u{f02b4}"@),
        ("laptop"@, "\u{f0322}"@),
        ("phone"@, "\u{f10b}"@),
        ("card"@, "\u{f08ae}"@),
        ("unknown"@, "\u{eb32}"@),
        ("tv"@, "\u{f26c}"@),
    ]
}

/// Among the first `n` entries of `table`, the first of the longest keywords
/// that occur in `hint`.
pub open spec fn best_match(table: Seq<(Seq<char>, Seq<char>)>, hint: Seq<char>, n: int) -> Option<
    int,
>
    decreases n,
{
    if n <= 0 {
        None
    } else {
        let prev = best_match(table, hint, n - 1);
        if contains_text(hint, table[n - 1].0) && (prev is None || table[n - 1].0.len()
            > table[prev->0].0.len()) {
            Some(n - 1)
        } else {
            prev
        }
    }
}

/// The glyph of the longest keyword found in `hint`, or the unknown glyph.
pub open spec fn category_spec(hint: Seq<char>) -> Seq<char> {
    match best_match(icon_table(), hint, icon_table().len() as int) {
        Some(i) => icon_table()[i].1,
        None => unknown_glyph(),
    }
}

/// The icon table's entries as text.
pub open spec fn table_view(t: Seq<(&'static str, &'static str)>) -> Seq<(Seq<char>, Seq<char>)> {
    t.map_values(|e: (&'static str, &'static str)| (e.0@, e.1@))
}

/// The keyword-to-glyph table, in the order in which ties are broken.
pub fn build_icon_map() -> (r: Vec<(&'static str, &'static str)>)
    ensures
        table_view(r@) == icon_table(),
{
    let mut r: Vec<(&'static str, &'static str)> = Vec::new();
    r.push(("headset", "\u{ee59}"));
    r.push(("headphone", "\u{f025}"));
    r.push(("speaker", "\u{f071f}"));
    r.push(("mouse", "\u{efba}"));
    r.push(("input-gaming", "\u{f02b4}"));
    r.push(("pad", "\u{f02b4}"));
    r.push(("controller", "\u{f02b4}"));
    r.push(("laptop", "\u{f0322}"));
    r.push(("phone", "\u{f10b}"));
    r.push(("card", "\u{f08ae}"));
    r.push(("unknown", "\u{eb32}"));
    r.push(("tv", "\u{f26c}"));
    assert(table_view(r@) =~= icon_table());
    r
}

/// Whether `needle` occurs in `hay`.
pub fn text_contains(hay: &str, needle: &str) -> (b: bool)
    ensures
        b == contains_text(hay@, needle@),
{
    let hn = hay.unicode_len();
    let nn = needle.unicode_len();
    if nn > hn {
        assert forall|i: int| !occurs_at(hay@, needle@, i) by {}
        return false;
    }
    let mut i: usize = 0;
    while i <= hn - nn
        invariant
            hn == hay@.len(),
            nn == needle@.len(),
            nn <= hn,
            i <= hn - nn + 1,
            forall|k: int| 0 <= k < i ==> !occurs_at(hay@, needle@, k),
        decreases hn - nn + 1 - i,
    {
        let mut j: usize = 0;
        let mut same = true;
        while j < nn
            invariant
                hn == hay@.len(),
                nn == needle@.len(),
                i + nn <= hn,
                j <= nn,
                same ==> forall|k: int| 0 <= k < j ==> hay@[i + k] == needle@[k],
                !same ==> exists|k: int| 0 <= k < nn && hay@[i + k] != needle@[k],
            decreases nn - j,
        {
            if same && hay.get_char(i + j) != needle.get_char(j) {
                same = false;
            }
            j = j + 1;
        }
        if same {
            assert(hay@.subrange(i as int, i + nn) =~= needle@);
            assert(occurs_at(hay@, needle@, i as int));
            return true;
        }
        proof {
            let k = choose|k: int| 0 <= k < nn && hay@[i + k] != needle@[k];
            assert(hay@.subrange(i as int, i + nn)[k] != needle@[k]);
        }
        i = i + 1;
    }
    assert forall|k: int| !occurs_at(hay@, needle@, k) by {
        if 0 <= k && k + nn <= hn {
            assert(k < i);
        }
    }
    false
}

/// The glyph for an icon hint that is already in lower case: the glyph of the
/// longest keyword that occurs in it, the first such in table order on a tie,
/// or the unknown glyph when none does.
pub fn category_for_lowercase(hint: &str) -> (r: String)
    ensures
        r@ == category_spec(hint@),
{
    let table = build_icon_map();
    let ghost tv = table_view(table@);
    let mut best: Option<usize> = None;
    let mut best_len: usize = 0;
    let n = table.len();
    assert(n == 12) by {
        assert(tv.len() == icon_table().len());
    }
    let mut i: usize = 0;
    while i < n
        invariant
            n == table@.len(),
            tv == table_view(table@),
            tv == icon_table(),
            i <= n,
            match best {
                Some(b) => best_match(tv, hint@, i as int) == Some(b as int) && b < i
                    && best_len == tv[b as int].0.len(),
                None => best_match(tv, hint@, i as int) is None,
            },
        decreases n - i,
    {
        let key = table[i].0;
        assert(key@ == tv[i as int].0);
        let klen = key.unicode_len();
        if text_contains(hint, key) {
            match best {
                Some(_) => {
                    if klen > best_len {
                        best = Some(i);
                        best_len = klen;
                    }
                },
                None => {
                    best = Some(i);
                    best_len = klen;
                },
            }
        }
        i = i + 1;
    }
    match best {
        Some(b) => {
            assert(table@[b as int].1@ == icon_table()[b as int].1);
            String::from_str(table[b].1)
        },
        None => String::from_str("\u{eb32}"),
    }
}

/// Names what `str::to_lowercase` returns for a text.
pub uninterp spec fn lower_of(s: Seq<char>) -> Seq<char>;

/// Relies on `str::to_lowercase`: the lower-case form of a text, which depends
/// on its characters alone.
#[verifier::external_body]
fn lowercase(s: &str) -> (r: String)
    ensures
        r@ == lower_of(s@),
{
    s.to_lowercase()
}

/// The glyph for a device's icon hint: the hint is taken in lower case, and a
/// device without a hint counts as "unknown".
pub fn category_of(icon: &Option<String>) -> (r: String)
    ensures
        r@ == match icon {
            Some(h) => category_spec(lower_of(h@)),
            None => category_spec("unknown"@),
        },
{
    match icon {
        Some(h) => {
            let lower = lowercase(h.as_str());
            category_for_lowercase(lower.as_str())
        },
        None => category_for_lowercase("unknown"),
    }
}

} // verus!
