//! Rewriting a status response: `&` colour codes turned into `§` codes,
//! the protocol version set, the icon replaced or removed.
use vstd::prelude::*;
use vstd::string::*;

use crate::json::{
    json_parsed, parse_json, write_json, json_written,
    delete_member, find_member, get_member, insert_member, keys_unique, lemma_get_after_insert,
    lemma_get_after_remove, into_members, items_view, json_view, member,
    lemma_find_member, lemma_members_view, members_view, object_members, position_of,
    remove_member, set_member, JsonMember, JsonValue, JsonView,
};
use vstd::pervasive::VecAdditionalExecFns;
use crate::proxy::config::types::{MotdFaviconConfig, MotdFaviconMode, MotdProtocolMode};
use crate::text::{find_char, first_index_of, push_char, signed_decimal_string, spec_signed_decimal};

verus! {

/// A character that may follow `&` as a formatting code: a colour digit or
/// letter, a style letter, or the reset.
pub open spec fn is_format_code(c: char) -> bool {
    ('0' <= c && c <= '9') || ('a' <= c && c <= 'f') || ('k' <= c && c <= 'o') || c == 'r' || (
    'A' <= c && c <= 'F') || ('K' <= c && c <= 'O') || c == 'R'
}

/// The lower-case form of an ASCII letter; other characters as they are.
pub open spec fn ascii_lower(c: char) -> char {
    if 'A' <= c && c <= 'Z' {
        ((c as u32) + 32) as char
    } else {
        c
    }
}

/// `text` with every `&` that precedes a formatting code replaced by `§`
/// and that code in lower case, read from the left.
pub open spec fn spec_format_text(text: Seq<char>) -> Seq<char>
    decreases text.len(),
{
    if text.len() == 0 {
        Seq::empty()
    } else if text.len() >= 2 && text[0] == '&' && is_format_code(text[1]) {
        seq!['§', ascii_lower(text[1])] + spec_format_text(text.skip(2))
    } else {
        seq![text[0]] + spec_format_text(text.skip(1))
    }
}

/// Every Minecraft formatting code after `&` turns into the same code after
/// `§`, in lower case: the colours `0`-`9` and `a`-`f`, the styles `k`-`o`
/// and the reset `r`, in either case. After `&`, any other character is
/// left as it is, and the `&` with it.
pub proof fn lemma_format_codes_converted(c: char, rest: Seq<char>)
    ensures
        (('0' <= c && c <= '9') || ('a' <= c && c <= 'f') || ('A' <= c && c <= 'F') || ('k' <= c
            && c <= 'o') || ('K' <= c && c <= 'O') || c == 'r' || c == 'R') ==> spec_format_text(
            seq!['&', c] + rest,
        ) == seq![
            '§',
            if 'A' <= c && c <= 'Z' {
                ((c as u32) + 32) as char
            } else {
                c
            },
        ] + spec_format_text(rest),
        !(('0' <= c && c <= '9') || ('a' <= c && c <= 'f') || ('A' <= c && c <= 'F') || ('k' <= c
            && c <= 'o') || ('K' <= c && c <= 'O') || c == 'r' || c == 'R') ==> spec_format_text(
            seq!['&', c] + rest,
        ) == seq!['&'] + spec_format_text(seq![c] + rest),
{
    let t = seq!['&', c] + rest;
    assert(t[0] == '&' && t[1] == c);
    assert(t.skip(2) =~= rest);
    assert(t.skip(1) =~= seq![c] + rest);
}

fn is_code(c: char) -> (b: bool)
    ensures
        b == is_format_code(c),
{
    ('0' <= c && c <= '9') || ('a' <= c && c <= 'f') || ('k' <= c && c <= 'o') || c == 'r' || (
    'A' <= c && c <= 'F') || ('K' <= c && c <= 'O') || c == 'R'
}

fn lower(c: char) -> (l: char)
    requires
        is_format_code(c),
    ensures
        l == ascii_lower(c),
{
    if 'A' <= c && c <= 'Z' {
        let code = (c as u32) + 32;
        assert(code <= 0x7f);
        if code == 97 { 'a' } else if code == 98 { 'b' } else if code == 99 { 'c' } else if code == 100 {
            'd'
        } else if code == 101 { 'e' } else if code == 102 { 'f' } else if code == 107 { 'k' } else if code
            == 108 { 'l' } else if code == 109 { 'm' } else if code == 110 { 'n' } else if code == 111 {
            'o'
        } else {
            'r'
        }
    } else {
        c
    }
}

/// The text with its `&` formatting codes turned into `§` codes; see
/// `spec_format_text`.
pub fn format_text(text: &str) -> (out: String)
    ensures
        out@ == spec_format_text(text@),
{
    let n = text.unicode_len();
    let mut out = String::new();
    let mut i: usize = 0;
    assert(text@.skip(0) =~= text@);
    assert(out@ + spec_format_text(text@) =~= spec_format_text(text@));
    while i < n
        invariant
            i <= n,
            n == text@.len(),
            out@ + spec_format_text(text@.skip(i as int)) == spec_format_text(text@),
        decreases n - i,
    {
        let ghost rest = text@.skip(i as int);
        let c = text.get_char(i);
        if c == '&' && i + 1 < n && is_code(text.get_char(i + 1)) {
            let code = text.get_char(i + 1);
            push_char(&mut out, '§');
            push_char(&mut out, lower(code));
            assert(rest.skip(2) =~= text@.skip(i + 2));
            assert(out@ + spec_format_text(text@.skip(i + 2)) =~= spec_format_text(text@));
            i = i + 2;
        } else {
            push_char(&mut out, c);
            assert(rest.skip(1) =~= text@.skip(i + 1));
            assert(out@ + spec_format_text(text@.skip(i + 1)) =~= spec_format_text(text@));
            i = i + 1;
        }
    }
    assert(text@.skip(n as int) =~= Seq::<char>::empty());
    assert(out@ =~= spec_format_text(text@));
    out
}

/// `v` with the formatting codes of all its strings turned into `§` codes.
pub open spec fn spec_format_json(v: JsonView) -> JsonView
    decreases v,
{
    match v {
        JsonView::Text(t) => JsonView::Text(spec_format_text(t)),
        JsonView::Array(items) => JsonView::Array(format_items(items)),
        JsonView::Object(members) => JsonView::Object(format_members(members)),
        _ => v,
    }
}

pub open spec fn format_items(items: Seq<JsonView>) -> Seq<JsonView>
    decreases items,
{
    if items.len() == 0 {
        Seq::empty()
    } else {
        format_items(items.drop_last()).push(spec_format_json(items.last()))
    }
}

pub open spec fn format_members(members: Seq<(Seq<char>, JsonView)>) -> Seq<(Seq<char>, JsonView)>
    decreases members,
{
    if members.len() == 0 {
        Seq::empty()
    } else {
        format_members(members.drop_last()).push(
            (members.last().0, spec_format_json(members.last().1)),
        )
    }
}

proof fn lemma_format_head(s: Seq<char>)
    requires
        s.len() > 0,
    ensures
        spec_format_text(s).len() > 0,
        spec_format_text(s)[0] == (if s.len() >= 2 && s[0] == '&' && is_format_code(s[1]) {
            '§'
        } else {
            s[0]
        }),
{
}

proof fn lemma_format_cons(c: char, y: Seq<char>)
    requires
        c != '&',
    ensures
        spec_format_text(seq![c] + y) == seq![c] + spec_format_text(y),
{
    assert((seq![c] + y).skip(1) =~= y);
}

proof fn lemma_format_amp_cons(y: Seq<char>)
    requires
        y.len() == 0 || !is_format_code(y[0]),
    ensures
        spec_format_text(seq!['&'] + y) == seq!['&'] + spec_format_text(y),
{
    assert((seq!['&'] + y).skip(1) =~= y);
}

/// Turning formatting codes into `§` codes leaves no code to turn: doing it
/// twice gives what doing it once gives.
pub proof fn lemma_format_text_idempotent(t: Seq<char>)
    ensures
        spec_format_text(spec_format_text(t)) == spec_format_text(t),
    decreases t.len(),
{
    if t.len() == 0 {
    } else if t.len() >= 2 && t[0] == '&' && is_format_code(t[1]) {
        let rest = t.skip(2);
        lemma_format_text_idempotent(rest);
        let lower = ascii_lower(t[1]);
        assert(seq!['§', lower] + spec_format_text(rest) =~= seq!['§'] + (seq![lower]
            + spec_format_text(rest)));
        lemma_format_cons('§', seq![lower] + spec_format_text(rest));
        lemma_format_cons(lower, spec_format_text(rest));
    } else {
        let rest = t.skip(1);
        lemma_format_text_idempotent(rest);
        if t[0] != '&' {
            lemma_format_cons(t[0], spec_format_text(rest));
        } else {
            if rest.len() > 0 {
                lemma_format_head(rest);
            }
            lemma_format_amp_cons(spec_format_text(rest));
        }
    }
}

/// Normalizing the formatting of a status twice gives what normalizing it
/// once gives.
pub proof fn lemma_format_json_idempotent(v: JsonView)
    ensures
        spec_format_json(spec_format_json(v)) == spec_format_json(v),
    decreases v,
{
    match v {
        JsonView::Text(t) => {
            lemma_format_text_idempotent(t);
        },
        JsonView::Array(items) => {
            lemma_format_items_idempotent(items);
        },
        JsonView::Object(members) => {
            lemma_format_members_idempotent(members);
        },
        _ => {},
    }
}

proof fn lemma_format_items_idempotent(items: Seq<JsonView>)
    ensures
        format_items(format_items(items)) == format_items(items),
    decreases items,
{
    if items.len() > 0 {
        lemma_format_items_idempotent(items.drop_last());
        lemma_format_json_idempotent(items.last());
        let once = format_items(items);
        assert(once.drop_last() =~= format_items(items.drop_last()));
    }
}

proof fn lemma_format_members_idempotent(members: Seq<(Seq<char>, JsonView)>)
    ensures
        format_members(format_members(members)) == format_members(members),
    decreases members,
{
    if members.len() > 0 {
        lemma_format_members_idempotent(members.drop_last());
        lemma_format_json_idempotent(members.last().1);
        let once = format_members(members);
        assert(once.drop_last() =~= format_members(members.drop_last()));
    }
}

/// A copy of `value` with its formatting codes turned into `§` codes.
fn formatted(value: &JsonValue) -> (r: JsonValue)
    ensures
        json_view(r) == spec_format_json(json_view(*value)),
    decreases *value,
{
    match value {
        JsonValue::Null => JsonValue::Null,
        JsonValue::Bool(b) => JsonValue::Bool(*b),
        JsonValue::Number(n) => JsonValue::Number(n.clone()),
        JsonValue::Text(t) => JsonValue::Text(format_text(t.as_str())),
        JsonValue::Array(items) => JsonValue::Array(formatted_items(items)),
        JsonValue::Object(members) => JsonValue::Object(formatted_members(members)),
    }
}

fn formatted_items(items: &Vec<JsonValue>) -> (r: Vec<JsonValue>)
    ensures
        items_view(r@) == format_items(items_view(items@)),
    decreases items@,
{
    let mut out: Vec<JsonValue> = Vec::new();
    let mut i: usize = 0;
    assert(items@.take(0) =~= Seq::<JsonValue>::empty());
    while i < items.len()
        invariant
            i <= items@.len(),
            items_view(out@) == format_items(items_view(items@.take(i as int))),
        decreases items@.len() - i,
    {
        let ghost before = out@;
        let item = formatted(&items[i]);
        out.push(item);
        proof {
            assert(items@.take(i + 1).drop_last() =~= items@.take(i as int));
            assert(out@.drop_last() =~= before);
            let xs = items_view(items@.take(i as int));
            assert(items_view(items@.take(i + 1)) == xs.push(json_view(items@[i as int])));
            assert(xs.push(json_view(items@[i as int])).drop_last() =~= xs);
        }
        i = i + 1;
    }
    assert(items@.take(items@.len() as int) =~= items@);
    out
}

fn formatted_members(members: &Vec<JsonMember>) -> (r: Vec<JsonMember>)
    ensures
        members_view(r@) == format_members(members_view(members@)),
    decreases members@,
{
    let mut out: Vec<JsonMember> = Vec::new();
    let mut i: usize = 0;
    assert(members@.take(0) =~= Seq::<JsonMember>::empty());
    while i < members.len()
        invariant
            i <= members@.len(),
            members_view(out@) == format_members(members_view(members@.take(i as int))),
        decreases members@.len() - i,
    {
        let ghost before = out@;
        let member = &members[i];
        let value = formatted(&member.value);
        out.push(JsonMember { key: member.key.clone(), value });
        proof {
            assert(members@.take(i + 1).drop_last() =~= members@.take(i as int));
            assert(out@.drop_last() =~= before);
            let xs = members_view(members@.take(i as int));
            let m = members@[i as int];
            assert(members_view(members@.take(i + 1)) == xs.push((m.key@, json_view(m.value))));
            assert(xs.push((m.key@, json_view(m.value))).drop_last() =~= xs);
        }
        i = i + 1;
    }
    assert(members@.take(members@.len() as int) =~= members@);
    out
}

/// Turns the `&` formatting codes in every string of `value` into `§`
/// codes.
pub fn normalize_minecraft_formatting(value: &mut JsonValue)
    ensures
        json_view(*final(value)) == spec_format_json(json_view(*old(value))),
{
    let r = formatted(value);
    *value = r;
}

/// The protocol number a status response announces.
pub open spec fn spec_protocol_value(mode: MotdProtocolMode, client_protocol: i32) -> i32 {
    match mode {
        MotdProtocolMode::Client => client_protocol,
        MotdProtocolMode::NegativeOne => -1i32,
        MotdProtocolMode::Fixed(p) => p,
    }
}

/// What a status response needs rewritten: its formatting codes, its
/// protocol number (the number to announce), its icon.
#[derive(Clone, Copy, Debug, PartialEq, Eq, Structural)]
pub struct RewritePlan {
    pub formatting: bool,
    pub protocol: Option<i32>,
    pub favicon: bool,
}

impl RewritePlan {
    /// Nothing to rewrite: the response goes out as it came.
    pub fn is_noop(&self) -> (b: bool)
        ensures
            b == (!self.formatting && self.protocol is None && !self.favicon),
    {
        !self.formatting && self.protocol.is_none() && !self.favicon
    }
}

/// What the status response `raw_json` needs rewritten; see `rewrite_plan`.
pub open spec fn spec_rewrite_plan(
    raw_json: Seq<char>,
    protocol_mode: MotdProtocolMode,
    client_protocol: i32,
    favicon_mode: MotdFaviconMode,
    has_explicit_favicon: bool,
    has_passthrough_json: bool,
) -> RewritePlan {
    RewritePlan {
        formatting: first_index_of(raw_json, '&', 0) is Some,
        protocol: if protocol_mode != MotdProtocolMode::Client || client_protocol != -1 {
            Some(spec_protocol_value(protocol_mode, client_protocol))
        } else {
            None
        },
        favicon: has_explicit_favicon || (favicon_mode == MotdFaviconMode::Passthrough
            && has_passthrough_json) || favicon_mode == MotdFaviconMode::Remove,
    }
}

/// Decides what the status response `raw_json` needs rewritten: formatting
/// where it holds an `&`; the protocol number unless the client's own is
/// announced and the client sent none; the icon where an explicit one is
/// given, the upstream's is passed through, or icons are removed.
pub fn rewrite_plan(
    raw_json: &str,
    protocol_mode: MotdProtocolMode,
    client_protocol: i32,
    favicon_mode: MotdFaviconMode,
    has_explicit_favicon: bool,
    has_passthrough_json: bool,
) -> (plan: RewritePlan)
    ensures
        plan == spec_rewrite_plan(
            raw_json@,
            protocol_mode,
            client_protocol,
            favicon_mode,
            has_explicit_favicon,
            has_passthrough_json,
        ),
        plan.formatting == (first_index_of(raw_json@, '&', 0) is Some),
        plan.favicon == (has_explicit_favicon || (favicon_mode == MotdFaviconMode::Passthrough
            && has_passthrough_json) || favicon_mode == MotdFaviconMode::Remove),
        plan.protocol == (if protocol_mode != MotdProtocolMode::Client || client_protocol != -1 {
            Some(spec_protocol_value(protocol_mode, client_protocol))
        } else {
            None::<i32>
        }),
{
    let formatting = find_char(raw_json, '&').is_some();
    let favicon = has_explicit_favicon || (favicon_mode == MotdFaviconMode::Passthrough
        && has_passthrough_json) || favicon_mode == MotdFaviconMode::Remove;
    let is_client = match protocol_mode {
        MotdProtocolMode::Client => true,
        _ => false,
    };
    let protocol = if !is_client || client_protocol != -1 {
        Some(
            match protocol_mode {
                MotdProtocolMode::Client => client_protocol,
                MotdProtocolMode::NegativeOne => -1i32,
                MotdProtocolMode::Fixed(p) => p,
            },
        )
    } else {
        None
    };
    RewritePlan { formatting, protocol, favicon }
}

/// `v` as an object whose `version.protocol` is `protocol`.
pub open spec fn spec_with_protocol(v: JsonView, protocol: i32) -> JsonView {
    let members = object_members(v);
    let version = match get_member(members, "version"@) {
        Some(JsonView::Object(vm)) => vm,
        _ => Seq::empty(),
    };
    JsonView::Object(
        insert_member(
            members,
            "version"@,
            JsonView::Object(
                insert_member(version, "protocol"@, JsonView::Number(spec_signed_decimal(protocol as int))),
            ),
        ),
    )
}

/// `v` with its icon as `mode` asks: kept, set from `explicit`, taken from
/// the upstream's status `source`, or removed.
pub open spec fn spec_with_favicon(
    v: JsonView,
    mode: MotdFaviconMode,
    explicit: Option<Seq<char>>,
    source: Option<JsonView>,
) -> JsonView {
    match mode {
        MotdFaviconMode::Json => v,
        MotdFaviconMode::Path => match explicit {
            Some(url) => JsonView::Object(insert_member(object_members(v), "favicon"@, JsonView::Text(url))),
            None => v,
        },
        MotdFaviconMode::Passthrough => match source {
            Some(src) => match get_member(object_members(src), "favicon"@) {
                Some(JsonView::Text(f)) => JsonView::Object(
                    insert_member(object_members(v), "favicon"@, JsonView::Text(f)),
                ),
                _ => v,
            },
            None => v,
        },
        MotdFaviconMode::Remove => JsonView::Object(remove_member(object_members(v), "favicon"@)),
    }
}

/// The status response `v` rewritten by `plan`.
pub open spec fn spec_rewrite(
    v: JsonView,
    plan: RewritePlan,
    mode: MotdFaviconMode,
    explicit: Option<Seq<char>>,
    source: Option<JsonView>,
) -> JsonView {
    let formatted = if plan.formatting {
        spec_format_json(v)
    } else {
        v
    };
    let versioned = match plan.protocol {
        Some(p) => spec_with_protocol(formatted, p),
        None => formatted,
    };
    if plan.favicon {
        spec_with_favicon(versioned, mode, explicit, source)
    } else {
        versioned
    }
}

/// Takes the value of the member at `i` out of `members`, leaving `Null`
/// under the same key.
fn take_member_value(members: &mut Vec<JsonMember>, i: usize) -> (v: JsonValue)
    requires
        i < old(members)@.len(),
    ensures
        json_view(v) == members_view(old(members)@)[i as int].1,
        members_view(final(members)@) == members_view(old(members)@).update(
            i as int,
            (members_view(old(members)@)[i as int].0, JsonView::Null),
        ),
{
    let ghost before = members@;
    proof {
        lemma_members_view(before);
    }
    let key = members[i].key.clone();
    let mut slot = JsonMember { key, value: JsonValue::Null };
    members.set_and_swap(i, &mut slot);
    proof {
        lemma_members_view(members@);
    }
    assert(members_view(members@) =~= members_view(before).update(
        i as int,
        (members_view(before)[i as int].0, JsonView::Null),
    ));
    slot.value
}

/// Finding a key only looks at the keys.
proof fn lemma_find_same_keys(
    s: Seq<(Seq<char>, JsonView)>,
    t: Seq<(Seq<char>, JsonView)>,
    key: Seq<char>,
    j: nat,
)
    requires
        s.len() == t.len(),
        forall|k: int| 0 <= k < s.len() ==> #[trigger] s[k].0 == t[k].0,
    ensures
        find_member(s, key, j) == find_member(t, key, j),
    decreases s.len() - j,
{
    if j < s.len() {
        assert(s[j as int].0 == t[j as int].0);
        lemma_find_same_keys(s, t, key, j + 1);
    }
}

/// After the protocol is set, the status's `version.protocol` reads back
/// as that number, whatever the status was.
pub proof fn lemma_protocol_read_back(v: JsonView, protocol: i32)
    ensures
        spec_with_protocol(v, protocol) matches JsonView::Object(members) && get_member(
            members,
            "version"@,
        ) matches Some(JsonView::Object(version)) && get_member(version, "protocol"@) == Some(
            JsonView::Number(spec_signed_decimal(protocol as int)),
        ),
{
    let members = object_members(v);
    let version = match get_member(members, "version"@) {
        Some(JsonView::Object(vm)) => vm,
        _ => Seq::empty(),
    };
    let number = JsonView::Number(spec_signed_decimal(protocol as int));
    lemma_get_after_insert(version, "protocol"@, number);
    lemma_get_after_insert(members, "version"@, JsonView::Object(insert_member(version, "protocol"@, number)));
}

/// An icon set from a data URL reads back as that URL; a removed icon,
/// from a status whose keys are distinct, reads back as absent.
pub proof fn lemma_favicon_read_back(v: JsonView, url: Seq<char>, source: Option<JsonView>)
    ensures
        spec_with_favicon(v, MotdFaviconMode::Path, Some(url), source) matches JsonView::Object(
            members,
        ) && get_member(members, "favicon"@) == Some(JsonView::Text(url)),
        keys_unique(object_members(v)) ==> (spec_with_favicon(
            v,
            MotdFaviconMode::Remove,
            Some(url),
            source,
        ) matches JsonView::Object(members) && get_member(members, "favicon"@) is None),
{
    lemma_get_after_insert(object_members(v), "favicon"@, JsonView::Text(url));
    if keys_unique(object_members(v)) {
        lemma_get_after_remove(object_members(v), "favicon"@);
    }
}

fn with_protocol(value: JsonValue, protocol: i32) -> (r: JsonValue)
    ensures
        json_view(r) == spec_with_protocol(json_view(value), protocol),
{
    let mut members = into_members(value);
    let ghost before = members_view(members@);
    let mut version: Vec<JsonMember> = Vec::new();
    match position_of(&members, "version") {
        Some(i) => {
            proof {
                lemma_find_member(before, "version"@, 0);
                lemma_members_view(members@);
            }
            let old_version = take_member_value(&mut members, i);
            proof {
                lemma_find_same_keys(members_view(members@), before, "version"@, 0);
                assert(forall|k: int| #![auto] 0 <= k < before.len() ==> members_view(members@)[k].0 == before[k].0);
            }
            version = into_members(old_version);
        },
        None => {},
    }
    assert(members_view(version@) == match get_member(before, "version"@) {
        Some(JsonView::Object(vm)) => vm,
        _ => Seq::<(Seq<char>, JsonView)>::empty(),
    });
    set_member(&mut version, "protocol", JsonValue::Number(signed_decimal_string(protocol as i64)));
    set_member(&mut members, "version", JsonValue::Object(version));
    assert(members_view(members@) == insert_member(before, "version"@, JsonView::Object(
        insert_member(
            match get_member(before, "version"@) {
                Some(JsonView::Object(vm)) => vm,
                _ => Seq::<(Seq<char>, JsonView)>::empty(),
            },
            "protocol"@,
            JsonView::Number(spec_signed_decimal(protocol as int)),
        ),
    )));
    JsonValue::Object(members)
}

/// The text `s` as a value, where there is one.
pub open spec fn opt_text(s: Option<&str>) -> Option<Seq<char>> {
    match s {
        Some(t) => Some(t@),
        None => None,
    }
}

/// The meaning of `v`, where there is one.
pub open spec fn opt_json(v: Option<&JsonValue>) -> Option<JsonView> {
    match v {
        Some(x) => Some(json_view(*x)),
        None => None,
    }
}

fn with_member(value: JsonValue, key: &str, member_value: JsonValue) -> (r: JsonValue)
    ensures
        json_view(r) == JsonView::Object(
            insert_member(object_members(json_view(value)), key@, json_view(member_value)),
        ),
{
    let mut members = into_members(value);
    set_member(&mut members, key, member_value);
    JsonValue::Object(members)
}

fn with_favicon(
    value: JsonValue,
    mode: MotdFaviconMode,
    explicit: Option<&str>,
    source: Option<&JsonValue>,
) -> (r: JsonValue)
    ensures
        json_view(r) == spec_with_favicon(json_view(value), mode, opt_text(explicit), opt_json(source)),
{
    match mode {
        MotdFaviconMode::Json => value,
        MotdFaviconMode::Path => match explicit {
            Some(url) => with_member(value, "favicon", JsonValue::Text(String::from_str(url))),
            None => value,
        },
        MotdFaviconMode::Passthrough => {
            let upstream_favicon: Option<String> = match source {
                Some(JsonValue::Object(source_members)) => match member(source_members, "favicon") {
                    Some(JsonValue::Text(f)) => Some(f.clone()),
                    _ => None,
                },
                _ => None,
            };
            match upstream_favicon {
                Some(f) => with_member(value, "favicon", JsonValue::Text(f)),
                None => value,
            }
        },
        MotdFaviconMode::Remove => {
            let mut members = into_members(value);
            delete_member(&mut members, "favicon");
            JsonValue::Object(members)
        },
    }
}

/// Rewrites the status response `value` as `plan` says: formatting codes
/// turned into `§` codes, the protocol number set under `version`, the icon
/// set from `explicit_favicon_data_url`, taken from the upstream's status
/// `passthrough_source`, or removed, as `favicon_mode` asks.
pub fn apply_rewrite(
    value: JsonValue,
    plan: &RewritePlan,
    favicon_mode: MotdFaviconMode,
    explicit_favicon_data_url: Option<&str>,
    passthrough_source: Option<&JsonValue>,
) -> (r: JsonValue)
    ensures
        json_view(r) == spec_rewrite(
            json_view(value),
            *plan,
            favicon_mode,
            opt_text(explicit_favicon_data_url),
            opt_json(passthrough_source),
        ),
{
    let formatted_value = if plan.formatting {
        formatted(&value)
    } else {
        value
    };
    let versioned = match plan.protocol {
        Some(p) => with_protocol(formatted_value, p),
        None => formatted_value,
    };
    if plan.favicon {
        with_favicon(versioned, favicon_mode, explicit_favicon_data_url, passthrough_source)
    } else {
        versioned
    }
}

/// The status response `raw_json` rewritten as the settings ask, or `None`
/// where it goes out as it came: nothing needs rewriting, or it does not
/// parse. `parsed` is `raw_json` parsed as JSON and `passthrough_source` is
/// `passthrough_favicon_json` parsed, each `None` where it does not parse.
pub fn rewrite_parsed_json(
    raw_json: &str,
    parsed: Option<JsonValue>,
    protocol_mode: MotdProtocolMode,
    client_protocol: i32,
    favicon: &MotdFaviconConfig,
    explicit_favicon_data_url: Option<&str>,
    passthrough_favicon_json: Option<&str>,
    passthrough_source: Option<&JsonValue>,
) -> (r: Option<JsonValue>)
    ensures
        ({
            let plan = spec_rewrite_plan(
                raw_json@,
                protocol_mode,
                client_protocol,
                favicon.mode,
                explicit_favicon_data_url is Some,
                passthrough_favicon_json is Some,
            );
            let unchanged = !plan.formatting && plan.protocol is None && !plan.favicon;
            &&& r is None <==> (unchanged || parsed is None)
            &&& r matches Some(v) ==> json_view(v) == spec_rewrite(
                json_view(parsed->0),
                plan,
                favicon.mode,
                opt_text(explicit_favicon_data_url),
                opt_json(passthrough_source),
            )
        }),
{
    let plan = rewrite_plan(
        raw_json,
        protocol_mode,
        client_protocol,
        favicon.mode,
        explicit_favicon_data_url.is_some(),
        passthrough_favicon_json.is_some(),
    );
    if plan.is_noop() {
        return None;
    }
    match parsed {
        None => None,
        Some(value) => Some(
            apply_rewrite(
                value,
                &plan,
                favicon.mode,
                explicit_favicon_data_url,
                passthrough_source,
            ),
        ),
    }
}

/// The passthrough source: `passthrough_favicon_json` parsed, where it is
/// given and parses.
pub open spec fn spec_passthrough_source(passthrough_favicon_json: Option<Seq<char>>) -> Option<
    JsonView,
> {
    match passthrough_favicon_json {
        Some(p) => json_parsed(p),
        None => None,
    }
}

/// The status JSON `raw_json` with its formatting codes, protocol number
/// and icon rewritten as the settings ask, written back as JSON; `raw_json`
/// itself where nothing needs rewriting or it does not parse. The icon is
/// taken from `explicit_favicon_data_url`, or from the status JSON
/// `passthrough_favicon_json` of the upstream.
pub fn rewrite_json(
    raw_json: &str,
    protocol_mode: MotdProtocolMode,
    client_protocol: i32,
    favicon: &MotdFaviconConfig,
    explicit_favicon_data_url: Option<&str>,
    passthrough_favicon_json: Option<&str>,
) -> (out: String)
    ensures
        ({
            let plan = spec_rewrite_plan(
                raw_json@,
                protocol_mode,
                client_protocol,
                favicon.mode,
                explicit_favicon_data_url is Some,
                passthrough_favicon_json is Some,
            );
            if (!plan.formatting && plan.protocol is None && !plan.favicon) || json_parsed(
                raw_json@,
            ) is None {
                out@ == raw_json@
            } else {
                out@ == json_written(
                    spec_rewrite(
                        json_parsed(raw_json@)->0,
                        plan,
                        favicon.mode,
                        opt_text(explicit_favicon_data_url),
                        spec_passthrough_source(opt_text(passthrough_favicon_json)),
                    ),
                )
            }
        }),
{
    let source = match passthrough_favicon_json {
        Some(p) => parse_json(p),
        None => None,
    };
    let rewritten = rewrite_parsed_json(
        raw_json,
        parse_json(raw_json),
        protocol_mode,
        client_protocol,
        favicon,
        explicit_favicon_data_url,
        passthrough_favicon_json,
        source.as_ref(),
    );
    match rewritten {
        Some(v) => write_json(&v),
        None => raw_json.to_string(),
    }
}

} // verus!
