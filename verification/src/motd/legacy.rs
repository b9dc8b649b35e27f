//! The text a pre-1.7 client shows: the plain text of a status description.
use vstd::prelude::*;
use vstd::string::*;

use crate::json::{
    json_parsed, parse_json,
    find_member, get_member, json_view, lemma_find_member, lemma_items_view, lemma_members_view,
    member, members_view, object_members, position_of, items_view, JsonValue, JsonView,
};
use crate::proxy::motd::rewrite::opt_json;

verus! {

/// The plain text of a text component: a string as it is, an array's items
/// one after the other, an object's `text` string followed by the text of
/// its `extra`; nothing for other values.
pub open spec fn spec_plain_text(v: JsonView) -> Seq<char>
    decreases v,
{
    match v {
        JsonView::Text(t) => t,
        JsonView::Array(items) => plain_text_of_items(items),
        JsonView::Object(members) => {
            let own = match get_member(members, "text"@) {
                Some(JsonView::Text(t)) => t,
                _ => Seq::empty(),
            };
            let extra = match find_member(members, "extra"@, 0) {
                Some(i) => if i < members.len() {
                    spec_plain_text(members[i as int].1)
                } else {
                    Seq::empty()
                },
                None => Seq::empty(),
            };
            own + extra
        },
        _ => Seq::empty(),
    }
}

pub open spec fn plain_text_of_items(items: Seq<JsonView>) -> Seq<char>
    decreases items,
{
    if items.len() == 0 {
        Seq::empty()
    } else {
        plain_text_of_items(items.drop_last()) + spec_plain_text(items.last())
    }
}

/// Collects the plain text of a text component.
pub struct LegacyTextExtractor {
    text: String,
}

impl LegacyTextExtractor {
    /// The plain text of `value`; see `spec_plain_text`.
    pub fn extract(value: &JsonValue) -> (text: String)
        ensures
            text@ == spec_plain_text(json_view(*value)),
    {
        let mut extractor = LegacyTextExtractor { text: String::new() };
        extractor.push_value(value);
        assert(extractor.text@ =~= spec_plain_text(json_view(*value)));
        extractor.text
    }

    fn push_items(&mut self, items: &Vec<JsonValue>)
        ensures
            final(self).text@ == old(self).text@ + plain_text_of_items(items_view(items@)),
        decreases items@,
    {
        let mut i: usize = 0;
        proof {
            lemma_items_view(items@);
        }
        assert(items_view(items@).take(0) =~= Seq::<JsonView>::empty());
        while i < items.len()
            invariant
                i <= items@.len(),
                items_view(items@).len() == items@.len(),
                forall|j: int|
                    0 <= j < items@.len() ==> #[trigger] items_view(items@)[j] == json_view(items@[j]),
                self.text@ == old(self).text@ + plain_text_of_items(items_view(items@).take(i as int)),
            decreases items@.len() - i,
        {
            self.push_value(&items[i]);
            proof {
                let xs = items_view(items@);
                assert(xs.take(i + 1).drop_last() =~= xs.take(i as int));
                assert(xs.take(i + 1).last() == json_view(items@[i as int]));
            }
            assert(self.text@ =~= old(self).text@ + plain_text_of_items(items_view(items@).take(i + 1)));
            i = i + 1;
        }
        assert(items_view(items@).take(items@.len() as int) =~= items_view(items@));
    }

    fn push_value(&mut self, value: &JsonValue)
        ensures
            final(self).text@ == old(self).text@ + spec_plain_text(json_view(*value)),
        decreases *value,
    {
        match value {
            JsonValue::Text(t) => {
                self.text.append(t.as_str());
            },
            JsonValue::Array(items) => {
                self.push_items(items);
            },
            JsonValue::Object(members) => {
                proof {
                    lemma_members_view(members@);
                }
                if let Some(JsonValue::Text(t)) = member(members, "text") {
                    self.text.append(t.as_str());
                }
                let ghost mid = self.text@;
                match position_of(members, "extra") {
                    Some(i) => {
                        proof {
                            lemma_find_member(members_view(members@), "extra"@, 0);
                            assert(members_view(members@)[i as int] == (
                                members@[i as int].key@,
                                json_view(members@[i as int].value),
                            ));
                        }
                        self.push_value(&members[i].value);
                    },
                    None => {},
                }
                assert(self.text@ =~= old(self).text@ + spec_plain_text(json_view(*value)));
            },
            _ => {},
        }
    }
}

/// The text a legacy client shows for the status `json`, parsed as
/// `parsed`: the plain text of its `description`, else `json` itself.
pub fn legacy_text_from(parsed: Option<&JsonValue>, json: &str) -> (text: String)
    ensures
        text@ == match opt_json(parsed) {
            Some(v) => match get_member(object_members(v), "description"@) {
                Some(d) => spec_plain_text(d),
                None => json@,
            },
            None => json@,
        },
{
    if let Some(JsonValue::Object(members)) = parsed {
        if let Some(description) = member(members, "description") {
            return LegacyTextExtractor::extract(description);
        }
    }
    String::from_str(json)
}

/// The text a legacy client shows for the status JSON `json`; see
/// `legacy_text_from`, with `json` parsed.
pub fn extract_legacy_text(json: &str) -> (text: String)
    ensures
        text@ == match json_parsed(json@) {
            Some(v) => match get_member(object_members(v), "description"@) {
                Some(d) => spec_plain_text(d),
                None => json@,
            },
            None => json@,
        },
{
    let parsed = parse_json(json);
    legacy_text_from(parsed.as_ref(), json)
}

} // verus!
