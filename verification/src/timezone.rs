//! IANA time-zone names: validation against the tz database that
//! `chrono-tz` carries, the sorted list of all names, and the search that
//! the time-zone picker offers.
use vstd::prelude::*;
use std::str::FromStr;
use crate::order::{sort_names, sorted_lex, string_views};
use crate::text::{
    ascii_lower, char_is_ascii_alphanumeric, char_is_control, char_is_whitespace,
    chars_contain, chars_of, chars_start_with, contains_seq, is_ascii_alphanumeric, is_control,
    lemma_trim_unchanged, lower_chars, occurs_at, starts_with, text_result, trim, trim_chars, utf8_len,
    utf8_len_exceeds,
};

verus! {

/// The zone that is offered before anything has been saved.
pub const DEFAULT_TIMEZONE: &'static str = "Etc/UTC";

/// The longest zone name, and the longest search query, in UTF-8 bytes.
pub const MAX_TIMEZONE_BYTES: usize = 64;

// ---------------------------------------------------------------------------
// The tz database
// ---------------------------------------------------------------------------

/// The canonical name that `chrono-tz` gives for `name`, if it knows it.
pub uninterp spec fn iana_zone_lookup(name: Seq<char>) -> Option<Seq<char>>;

/// Looks `value` up with `chrono_tz::Tz::from_str` and returns `Tz::name`
/// of the zone found. In chrono-tz the lookup is an exact match in a map
/// from each zone's name to its variant, so a zone that is found carries
/// the very name it was looked up by.
#[verifier::external_body]
fn lookup_iana_zone(value: &str) -> (r: Option<String>)
    ensures
        crate::text::text_option(r) == iana_zone_lookup(value@),
        r matches Some(name) ==> name@ == value@,
{
    chrono_tz::Tz::from_str(value).ok().map(|zone| zone.name().to_string())
}

/// The names of all zones in `chrono_tz::TZ_VARIANTS`, in that array's
/// order. In chrono-tz the keys of the name-to-zone map that
/// `Tz::from_str` consults are exactly these names, each key mapping to
/// the variant of that name, and no two variants share a name.
#[verifier::external_body]
fn iana_zone_names() -> (r: Vec<String>)
    ensures
        forall|i: int| 0 <= i < r@.len() ==> iana_zone_lookup(#[trigger] r@[i]@) == Some(r@[i]@),
        forall|name: Seq<char>| #[trigger] iana_zone_lookup(name) is Some ==> string_views(r@).contains(name),
        string_views(r@).no_duplicates(),
{
    chrono_tz::TZ_VARIANTS.iter().map(|zone| zone.name().to_string()).collect()
}

// ---------------------------------------------------------------------------
// Validation
// ---------------------------------------------------------------------------

pub open spec fn msg_choose_valid_timezone() -> Seq<char> {
    "请选择有效的 IANA 时区。"@
}

pub open spec fn msg_timezone_bad_characters() -> Seq<char> {
    "时区名称包含不允许的字符。"@
}

pub open spec fn msg_unknown_timezone() -> Seq<char> {
    "无法识别该 IANA 时区。"@
}

/// The characters a zone name may hold.
pub open spec fn is_timezone_char(c: char) -> bool {
    is_ascii_alphanumeric(c) || c == '/' || c == '_' || c == '-' || c == '+'
}

/// What `validate_timezone` answers for `value`.
pub open spec fn timezone_verdict(value: Seq<char>) -> Result<Seq<char>, Seq<char>> {
    if value.len() == 0 || utf8_len(value) > 64 || trim(value) != value {
        Err(msg_choose_valid_timezone())
    } else if !(forall|i: int| 0 <= i < value.len() ==> is_timezone_char(#[trigger] value[i])) {
        Err(msg_timezone_bad_characters())
    } else if iana_zone_lookup(value) is None {
        Err(msg_unknown_timezone())
    } else {
        Ok(value)
    }
}

fn char_is_timezone_char(c: char) -> (r: bool)
    ensures
        r == is_timezone_char(c),
{
    char_is_ascii_alphanumeric(c) || c == '/' || c == '_' || c == '-' || c == '+'
}

/// Checks that `value` is the name of an IANA zone and returns that name.
/// Empty, over-long or padded input, characters outside the name alphabet
/// and names unknown to the tz database are refused, each with its own
/// message.
pub fn validate_timezone(value: &str) -> (r: Result<String, String>)
    ensures
        text_result(r) == timezone_verdict(value@),
{
    let chars = chars_of(value);
    let n = chars.len();
    proof {
        lemma_trim_unchanged(value@);
    }
    if n == 0 || utf8_len_exceeds(chars.as_slice(), MAX_TIMEZONE_BYTES) || char_is_whitespace(
        chars[0],
    ) || char_is_whitespace(chars[n - 1]) {
        return Err("请选择有效的 IANA 时区。".to_owned());
    }
    let mut i: usize = 0;
    while i < n
        invariant
            0 <= i <= n,
            n == chars@.len(),
            chars@ == value@,
            n > 0,
            utf8_len(value@) <= 64,
            trim(value@) == value@,
            forall|k: int| 0 <= k < i ==> is_timezone_char(#[trigger] chars@[k]),
        decreases n - i,
    {
        if !char_is_timezone_char(chars[i]) {
            return Err("时区名称包含不允许的字符。".to_owned());
        }
        i += 1;
    }
    match lookup_iana_zone(value) {
        Some(name) => Ok(name),
        None => Err("无法识别该 IANA 时区。".to_owned()),
    }
}

// ---------------------------------------------------------------------------
// All zones
// ---------------------------------------------------------------------------

/// The names of all zones of the tz database, each once, in ascending
/// order: exactly the names that the database looks up to themselves.
pub fn all_timezones() -> (r: Vec<String>)
    ensures
        sorted_lex(string_views(r@)),
        string_views(r@).no_duplicates(),
        forall|i: int| 0 <= i < r@.len() ==> iana_zone_lookup(#[trigger] r@[i]@) == Some(r@[i]@),
        forall|name: Seq<char>|
            #[trigger] string_views(r@).contains(name) <==> iana_zone_lookup(name) == Some(name),
{
    let names = iana_zone_names();
    let sorted = sort_names(names.as_slice());
    proof {
        broadcast use vstd::seq_lib::group_to_multiset_ensures;

        assert forall|i: int| 0 <= i < sorted@.len() implies iana_zone_lookup(
            #[trigger] sorted@[i]@,
        ) == Some(sorted@[i]@) by {
            let x = sorted@[i]@;
            assert(string_views(sorted@)[i] == x);
            assert(string_views(sorted@).contains(x));
            assert(string_views(names@).to_multiset().count(x) > 0);
            assert(string_views(names@).contains(x));
            let k = choose|k: int| 0 <= k < string_views(names@).len() && string_views(names@)[k]
                == x;
            assert(names@[k]@ == x);
        }
        let sv = string_views(sorted@);
        let nv = string_views(names@);
        assert forall|name: Seq<char>| #[trigger] sv.contains(name) <==> iana_zone_lookup(name)
            == Some(name) by {
            if sv.contains(name) {
                let i = choose|i: int| 0 <= i < sv.len() && sv[i] == name;
                assert(sorted@[i]@ == name);
            }
            if iana_zone_lookup(name) == Some(name) {
                assert(iana_zone_lookup(name) is Some);
                assert(nv.contains(name));
                assert(nv.to_multiset().count(name) > 0);
                assert(sv.to_multiset().count(name) > 0);
            }
        }
        nv.lemma_multiset_has_no_duplicates();
        assert forall|x: Seq<char>| sv.to_multiset().contains(x) implies sv.to_multiset().count(x)
            == 1 by {
            assert(nv.to_multiset().contains(x));
        }
        sv.lemma_multiset_has_no_duplicates_conv();
    }
    sorted
}

// ---------------------------------------------------------------------------
// Search
// ---------------------------------------------------------------------------

/// The text of each borrowed name.
pub open spec fn str_views(s: Seq<&str>) -> Seq<Seq<char>> {
    s.map_values(|x: &str| x@)
}

/// A query is refused when, trimmed, it is longer than 64 bytes or holds a
/// control character.
pub open spec fn query_refused(q: Seq<char>) -> bool {
    utf8_len(q) > 64 || exists|i: int| 0 <= i < q.len() && is_control(#[trigger] q[i])
}

/// The lowered zone name begins with the lowered query.
pub open spec fn prefix_hit(lowered_query: Seq<char>) -> spec_fn(Seq<char>) -> bool {
    |zone: Seq<char>| starts_with(ascii_lower(zone), lowered_query)
}

/// The lowered query occurs inside the lowered zone name, but not at its start.
pub open spec fn inner_hit(lowered_query: Seq<char>) -> spec_fn(Seq<char>) -> bool {
    |zone: Seq<char>|
        !starts_with(ascii_lower(zone), lowered_query) && contains_seq(
            ascii_lower(zone),
            lowered_query,
        )
}

/// The zones that a search for `query` lists: every zone for a blank
/// query, none for a refused one, and otherwise the zones that the query
/// matches ignoring ASCII case, those it begins before those it only
/// occurs in, each group in the order of `zones`.
pub open spec fn matching_zones(zones: Seq<Seq<char>>, query: Seq<char>) -> Seq<Seq<char>> {
    let q = trim(query);
    if query_refused(q) {
        Seq::empty()
    } else if q.len() == 0 {
        zones
    } else {
        zones.filter(prefix_hit(ascii_lower(q))) + zones.filter(inner_hit(ascii_lower(q)))
    }
}

proof fn lemma_filter_push(s: Seq<Seq<char>>, pred: spec_fn(Seq<char>) -> bool, e: Seq<char>)
    ensures
        s.push(e).filter(pred) == (if pred(e) {
            s.filter(pred).push(e)
        } else {
            s.filter(pred)
        }),
{
    reveal(Seq::filter);
    assert(s.push(e).drop_last() =~= s);
}

/// The zones that match a search query; see `matching_zones`.
pub fn matching_timezones<'a>(zones: &'a [String], query: &str) -> (r: Vec<&'a str>)
    ensures
        str_views(r@) == matching_zones(string_views(zones@), query@),
{
    let ghost views = string_views(zones@);
    let q = trim_chars(chars_of(query).as_slice());
    if utf8_len_exceeds(q.as_slice(), MAX_TIMEZONE_BYTES) {
        return Vec::new();
    }
    let mut c: usize = 0;
    while c < q.len()
        invariant
            0 <= c <= q.len(),
            q@ == trim(query@),
            forall|k: int| 0 <= k < c ==> !is_control(#[trigger] q@[k]),
        decreases q.len() - c,
    {
        if char_is_control(q[c]) {
            assert(query_refused(q@));
            return Vec::new();
        }
        c += 1;
    }
    if q.len() == 0 {
        let mut all: Vec<&'a str> = Vec::new();
        let mut i: usize = 0;
        while i < zones.len()
            invariant
                0 <= i <= zones.len(),
                views == string_views(zones@),
                str_views(all@) == views.take(i as int),
            decreases zones.len() - i,
        {
            all.push(zones[i].as_str());
            assert(views.take(i + 1) =~= views.take(i as int).push(views[i as int]));
            assert(str_views(all@) =~= str_views(all@.drop_last()).push(all@.last()@));
            i += 1;
        }
        assert(views.take(zones.len() as int) =~= views);
        return all;
    }
    let lq = lower_chars(q.as_slice());
    let ghost prefix_pred = prefix_hit(lq@);
    let ghost inner_pred = inner_hit(lq@);
    let mut prefix: Vec<&'a str> = Vec::new();
    let mut inner: Vec<&'a str> = Vec::new();
    let mut i: usize = 0;
    assert(views.take(0) =~= Seq::<Seq<char>>::empty());
    proof {
        reveal(Seq::filter);
    }
    assert(str_views(prefix@) =~= views.take(0).filter(prefix_pred));
    assert(str_views(inner@) =~= views.take(0).filter(inner_pred));
    while i < zones.len()
        invariant
            0 <= i <= zones.len(),
            views == string_views(zones@),
            prefix_pred == prefix_hit(lq@),
            inner_pred == inner_hit(lq@),
            str_views(prefix@) == views.take(i as int).filter(prefix_pred),
            str_views(inner@) == views.take(i as int).filter(inner_pred),
        decreases zones.len() - i,
    {
        let zone: &'a str = zones[i].as_str();
        let normalized = lower_chars(chars_of(zone).as_slice());
        proof {
            assert(views.take(i + 1) =~= views.take(i as int).push(zone@));
            lemma_filter_push(views.take(i as int), prefix_pred, zone@);
            lemma_filter_push(views.take(i as int), inner_pred, zone@);
        }
        if chars_start_with(normalized.as_slice(), lq.as_slice()) {
            prefix.push(zone);
            assert(str_views(prefix@) =~= str_views(prefix@.drop_last()).push(zone@));
        } else if chars_contain(normalized.as_slice(), lq.as_slice()) {
            inner.push(zone);
            assert(str_views(inner@) =~= str_views(inner@.drop_last()).push(zone@));
        }
        i += 1;
    }
    assert(views.take(zones.len() as int) =~= views);
    let ghost head = str_views(prefix@);
    let mut j: usize = 0;
    while j < inner.len()
        invariant
            0 <= j <= inner.len(),
            str_views(prefix@) == head + str_views(inner@).take(j as int),
        decreases inner.len() - j,
    {
        let ghost before = prefix@;
        prefix.push(inner[j]);
        assert(str_views(inner@).take(j + 1) =~= str_views(inner@).take(j as int).push(
            inner@[j as int]@,
        ));
        assert(prefix@ =~= before.push(inner@[j as int]));
        assert(str_views(prefix@) =~= str_views(before).push(inner@[j as int]@));
        j += 1;
    }
    assert(str_views(inner@).take(inner.len() as int) =~= str_views(inner@));
    prefix
}

} // verus!

verus! {

// ---------------------------------------------------------------------------
// Laws
// ---------------------------------------------------------------------------

/// A validated zone name validates again to itself, so validating twice
/// changes nothing.
pub proof fn lemma_validation_is_idempotent(value: Seq<char>)
    ensures
        timezone_verdict(value) matches Ok(zone) ==> zone == value && timezone_verdict(zone) == Ok::<
            Seq<char>,
            Seq<char>,
        >(zone),
{
}

/// A validated zone name can hold no character that could end or extend a
/// `NAME=value` environment entry: no `=`, no NUL, no whitespace or line
/// break.
pub proof fn lemma_validated_zone_is_inert(value: Seq<char>)
    ensures
        timezone_verdict(value) is Ok ==> forall|i: int|
            0 <= i < value.len() ==> {
                &&& #[trigger] value[i] != '='
                &&& value[i] != '\0'
                &&& !crate::text::is_whitespace(value[i])
                &&& !is_control(value[i])
            },
{
    if timezone_verdict(value) is Ok {
        assert forall|i: int| 0 <= i < value.len() implies {
            &&& #[trigger] value[i] != '='
            &&& value[i] != '\0'
            &&& !crate::text::is_whitespace(value[i])
            &&& !is_control(value[i])
        } by {
            assert(is_timezone_char(value[i]));
        }
    }
}

/// Every zone that a search lists is one of the zones searched, and (for a
/// non-blank query) holds the trimmed query, ignoring ASCII case.
pub proof fn lemma_search_results_contain_query(zones: Seq<Seq<char>>, query: Seq<char>)
    ensures
        forall|k: int|
            0 <= k < matching_zones(zones, query).len() ==> {
                &&& zones.contains(#[trigger] matching_zones(zones, query)[k])
                &&& trim(query).len() > 0 ==> contains_seq(
                    ascii_lower(matching_zones(zones, query)[k]),
                    ascii_lower(trim(query)),
                )
            },
{
    let q = trim(query);
    let lq = ascii_lower(q);
    let found = matching_zones(zones, query);
    broadcast use vstd::seq_lib::group_filter_ensures;

    if !query_refused(q) && q.len() > 0 {
        let prefixed = zones.filter(prefix_hit(lq));
        let inner = zones.filter(inner_hit(lq));
        assert forall|k: int| 0 <= k < found.len() implies {
            &&& zones.contains(#[trigger] found[k])
            &&& contains_seq(ascii_lower(found[k]), lq)
        } by {
            if k < prefixed.len() {
                assert(found[k] == prefixed[k]);
                assert(prefixed.contains(prefixed[k]));
                zones.lemma_filter_contains_rev(prefix_hit(lq), prefixed[k]);
                assert(prefix_hit(lq)(prefixed[k]));
                assert(occurs_at(ascii_lower(found[k]), lq, 0)) by {
                    assert(ascii_lower(found[k]).subrange(0, lq.len() as int) =~= ascii_lower(
                        found[k],
                    ).take(lq.len() as int));
                }
            } else {
                assert(found[k] == inner[k - prefixed.len()]);
                assert(inner.contains(inner[k - prefixed.len()]));
                zones.lemma_filter_contains_rev(inner_hit(lq), inner[k - prefixed.len()]);
                assert(inner_hit(lq)(inner[k - prefixed.len()]));
            }
        }
    } else if !query_refused(q) {
        assert forall|k: int| 0 <= k < found.len() implies zones.contains(
            #[trigger] found[k],
        ) by {
            assert(found[k] == zones[k]);
        }
    }
}

} // verus!

verus! {

/// The search misses nothing: for a query that is neither refused nor
/// blank, every zone whose name holds the trimmed query anywhere, ignoring
/// ASCII case, is listed.
pub proof fn lemma_search_finds_every_zone_holding_the_query(
    zones: Seq<Seq<char>>,
    query: Seq<char>,
    zone: Seq<char>,
)
    requires
        !query_refused(trim(query)),
        trim(query).len() > 0,
        zones.contains(zone),
        contains_seq(ascii_lower(zone), ascii_lower(trim(query))),
    ensures
        matching_zones(zones, query).contains(zone),
{
    let lq = ascii_lower(trim(query));
    let i = choose|i: int| 0 <= i < zones.len() && zones[i] == zone;
    let prefixed = zones.filter(prefix_hit(lq));
    let inner = zones.filter(inner_hit(lq));
    let found = matching_zones(zones, query);
    assert(found == prefixed + inner);
    if starts_with(ascii_lower(zone), lq) {
        zones.lemma_filter_contains(prefix_hit(lq), i);
        let k = choose|k: int| 0 <= k < prefixed.len() && prefixed[k] == zone;
        assert(found[k] == zone);
    } else {
        zones.lemma_filter_contains(inner_hit(lq), i);
        let k = choose|k: int| 0 <= k < inner.len() && inner[k] == zone;
        assert(found[prefixed.len() + k] == zone);
    }
}

/// Every zone whose name begins with the query (ignoring ASCII case) comes
/// before every zone that only holds it further in.
pub proof fn lemma_search_lists_prefix_matches_first(zones: Seq<Seq<char>>, query: Seq<char>)
    requires
        !query_refused(trim(query)),
        trim(query).len() > 0,
    ensures
        forall|a: int, b: int|
            0 <= a < matching_zones(zones, query).len() && 0 <= b < matching_zones(
                zones,
                query,
            ).len() && starts_with(ascii_lower(#[trigger] matching_zones(zones, query)[a]), ascii_lower(trim(query)))
                && !starts_with(ascii_lower(#[trigger] matching_zones(zones, query)[b]), ascii_lower(trim(query)))
                ==> a < b,
{
    let lq = ascii_lower(trim(query));
    let prefixed = zones.filter(prefix_hit(lq));
    let inner = zones.filter(inner_hit(lq));
    let found = matching_zones(zones, query);
    broadcast use vstd::seq_lib::group_filter_ensures;

    assert(found == prefixed + inner);
    assert forall|a: int, b: int|
        0 <= a < found.len() && 0 <= b < found.len() && starts_with(ascii_lower(#[trigger] found[a]), lq)
            && !starts_with(ascii_lower(#[trigger] found[b]), lq) implies a < b by {
        if a >= prefixed.len() {
            assert(found[a] == inner[a - prefixed.len()]);
            assert(inner.contains(inner[a - prefixed.len()]));
            zones.lemma_filter_contains_rev(inner_hit(lq), inner[a - prefixed.len()]);
            assert(inner_hit(lq)(found[a]));
        }
        if b < prefixed.len() {
            assert(found[b] == prefixed[b]);
            assert(prefixed.contains(prefixed[b]));
            zones.lemma_filter_contains_rev(prefix_hit(lq), prefixed[b]);
            assert(prefix_hit(lq)(found[b]));
        }
    }
}

} // verus!

verus! {

/// A blank query lists every zone, in the given order; a query that holds
/// a control character, or is longer than 64 bytes once trimmed, lists none.
pub proof fn lemma_blank_and_refused_searches(zones: Seq<Seq<char>>, query: Seq<char>)
    ensures
        trim(query).len() == 0 ==> matching_zones(zones, query) == zones,
        (exists|i: int| 0 <= i < trim(query).len() && is_control(#[trigger] trim(query)[i]))
            ==> matching_zones(zones, query).len() == 0,
        utf8_len(trim(query)) > 64 ==> matching_zones(zones, query).len() == 0,
{
    if trim(query).len() == 0 {
        assert(utf8_len(trim(query)) == 0) by {
            assert(trim(query) =~= Seq::<char>::empty());
        }
    }
}

} // verus!

verus! {

/// Exactly the well-formed names that the tz database knows are accepted,
/// and each is accepted as itself: a name that is non-empty, at most 64
/// bytes, without surrounding whitespace, made of ASCII letters, digits and
/// `/ _ - +`, and known to the database validates to itself; any other
/// value is refused.
pub proof fn lemma_validation_accepts_exactly_known_names(value: Seq<char>)
    ensures
        (value.len() > 0 && utf8_len(value) <= 64 && trim(value) == value && (forall|i: int|
            0 <= i < value.len() ==> #[trigger] is_timezone_char(value[i])) && iana_zone_lookup(value)
            is Some) ==> timezone_verdict(value) == Ok::<Seq<char>, Seq<char>>(value),
        timezone_verdict(value) matches Ok(zone) ==> zone == value && iana_zone_lookup(value) is Some
            && value.len() > 0 && utf8_len(value) <= 64,
        value.len() == 0 ==> timezone_verdict(value) is Err,
        iana_zone_lookup(value) is None ==> timezone_verdict(value) is Err,
{
}

} // verus!
