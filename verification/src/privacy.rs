//! Keeping personal data out of prompts and results.
use vstd::prelude::*;
use vstd::string::*;
use crate::json::{JsonValue, JsonView, json_view};
use crate::pattern::{regex_compiles, regex_replace, regex_replace_all, regex_valid};

verus! {

/// The pattern of e-mail addresses.
pub open spec fn email_pattern() -> Seq<char> {
    "[a-zA-Z0-9._%+-]+@[a-zA-Z0-9.-]+\\.[a-zA-Z]{2,}"@
}

/// The pattern of card numbers: 13 to 16 digits, maybe separated by spaces or dashes.
pub open spec fn card_pattern() -> Seq<char> {
    "\\b(?:\\d[ -]*?){13,16}\\b"@
}

/// The text with each e-mail address replaced by `[EMAIL]`, then each card
/// number by `[CARD]`.
pub open spec fn mask_text(s: Seq<char>) -> Seq<char> {
    regex_replace_all(card_pattern(), regex_replace_all(email_pattern(), s, "[EMAIL]"@), "[CARD]"@)
}

/// The value with every string in it masked, at any depth; all else as it was.
pub open spec fn masked(v: JsonView) -> JsonView
    decreases v,
{
    match v {
        JsonView::Str(s) => JsonView::Str(mask_text(s)),
        JsonView::Array(items) => JsonView::Array(
            Seq::new(
                items.len(),
                |i: int|
                    if 0 <= i < items.len() {
                        masked(items[i])
                    } else {
                        JsonView::Null
                    },
            ),
        ),
        JsonView::Object(members) => JsonView::Object(
            Seq::new(
                members.len(),
                |i: int|
                    if 0 <= i < members.len() {
                        (members[i].0, masked(members[i].1))
                    } else {
                        (Seq::empty(), JsonView::Null)
                    },
            ),
        ),
        _ => v,
    }
}

/// Replaces e-mail addresses and card numbers in prompts and results.
pub struct SimplePrivacyGuard {
    email_pattern: String,
    card_pattern: String,
}

impl SimplePrivacyGuard {
    #[verifier::type_invariant]
    spec fn inv(self) -> bool {
        &&& self.email_pattern@ == email_pattern()
        &&& self.card_pattern@ == card_pattern()
        &&& regex_compiles(email_pattern())
        &&& regex_compiles(card_pattern())
    }

    /// The pattern by which the guard finds e-mail addresses.
    pub closed spec fn email_regex(self) -> Seq<char> {
        self.email_pattern@
    }

    /// The pattern by which the guard finds card numbers.
    pub closed spec fn card_regex(self) -> Seq<char> {
        self.card_pattern@
    }

    /// A guard with the e-mail and card patterns.
    pub fn new() -> (r: Self)
        requires
            regex_compiles(email_pattern()),
            regex_compiles(card_pattern()),
        ensures
            r.email_regex() == email_pattern(),
            r.card_regex() == card_pattern(),
    {
        SimplePrivacyGuard {
            email_pattern: String::from_str("[a-zA-Z0-9._%+-]+@[a-zA-Z0-9.-]+\\.[a-zA-Z]{2,}"),
            card_pattern: String::from_str("\\b(?:\\d[ -]*?){13,16}\\b"),
        }
    }

    /// Checks that the patterns compile, then makes a guard; `None` when they do not.
    pub fn try_new() -> (r: Option<Self>)
        ensures
            r is Some <==> regex_compiles(email_pattern()) && regex_compiles(card_pattern()),
            r matches Some(g) ==> g.email_regex() == email_pattern() && g.card_regex()
                == card_pattern(),
    {
        if regex_valid("[a-zA-Z0-9._%+-]+@[a-zA-Z0-9.-]+\\.[a-zA-Z]{2,}") && regex_valid(
            "\\b(?:\\d[ -]*?){13,16}\\b",
        ) {
            Some(Self::new())
        } else {
            None
        }
    }

    /// Masks e-mail addresses and card numbers in a text.
    fn mask_string(&self, s: &str) -> (r: String)
        ensures
            r@ == mask_text(s@),
    {
        proof {
            use_type_invariant(self);
        }
        let step = regex_replace(self.email_pattern.as_str(), s, "[EMAIL]");
        regex_replace(self.card_pattern.as_str(), step.as_str(), "[CARD]")
    }

    /// The prompt with e-mail addresses replaced by `[EMAIL]` and card numbers by `[CARD]`.
    pub fn scrub_prompt(&self, prompt: &str) -> (r: String)
        ensures
            r@ == mask_text(prompt@),
    {
        self.mask_string(prompt)
    }

    /// The value with every string in it masked.
    fn mask_value(&self, value: &JsonValue) -> (r: JsonValue)
        ensures
            r@ == masked(value@),
        decreases value,
    {
        match value {
            JsonValue::String(s) => JsonValue::String(self.mask_string(s.as_str())),
            JsonValue::Array(items) => {
                let mut out: Vec<JsonValue> = Vec::new();
                let mut i: usize = 0;
                while i < items.len()
                    invariant
                        *value == JsonValue::Array(*items),
                        i <= items@.len(),
                        out@.len() == i,
                        forall|k: int| 0 <= k < i ==> json_view(out@[k]) == masked(json_view(items@[k])),
                    decreases items.len() - i,
                {
                    proof {
                        assert(*value == JsonValue::Array(*items));
                        assert(decreases_to!(*value => value->Array_0));
                        assert(decreases_to!(*items => items@));
                        assert(decreases_to!(items@ => items@[i as int]));
                    }
                    let m = self.mask_value(&items[i]);
                    out.push(m);
                    i = i + 1;
                }
                let r = JsonValue::Array(out);
                assert(json_view(r)->Array_0 =~= masked(json_view(*value))->Array_0);
                r
            },
            JsonValue::Object(members) => {
                let mut out: Vec<(String, JsonValue)> = Vec::new();
                let mut i: usize = 0;
                while i < members.len()
                    invariant
                        *value == JsonValue::Object(*members),
                        i <= members@.len(),
                        out@.len() == i,
                        forall|k: int| 0 <= k < i ==> out@[k].0@ == members@[k].0@ && json_view(out@[k].1) == masked(json_view(members@[k].1)),
                    decreases members.len() - i,
                {
                    proof {
                        assert(*value == JsonValue::Object(*members));
                        assert(decreases_to!(*value => value->Object_0));
                        assert(decreases_to!(*members => members@));
                        assert(decreases_to!(members@ => members@[i as int]));
                        assert(decreases_to!(members@[i as int] => members@[i as int].1));
                    }
                    let m = self.mask_value(&members[i].1);
                    out.push((members[i].0.clone(), m));
                    i = i + 1;
                }
                let r = JsonValue::Object(out);
                assert(json_view(r)->Object_0 =~= masked(json_view(*value))->Object_0);
                r
            },
            JsonValue::Null => JsonValue::Null,
            JsonValue::Bool(b) => JsonValue::Bool(*b),
            JsonValue::Number(n) => JsonValue::Number(n.clone()),
        }
    }

    /// The data with every string in it, at any depth, masked.
    pub fn mask_results(&self, data: &JsonValue) -> (r: JsonValue)
        ensures
            r@ == masked(data@),
    {
        self.mask_value(data)
    }
}

/// Two values have the same shape: they differ at most in the text of their strings.
pub open spec fn same_shape(a: JsonView, b: JsonView) -> bool
    decreases a,
{
    match (a, b) {
        (JsonView::Str(_), JsonView::Str(_)) => true,
        (JsonView::Array(x), JsonView::Array(y)) => x.len() == y.len() && forall|i: int|
            0 <= i < x.len() ==> same_shape(#[trigger] x[i], y[i]),
        (JsonView::Object(x), JsonView::Object(y)) => x.len() == y.len() && forall|i: int|
            0 <= i < x.len() ==> (#[trigger] x[i]).0 == y[i].0 && same_shape(x[i].1, y[i].1),
        _ => a == b,
    }
}

/// Masking changes only the text of strings: arrays keep their length, objects
/// their keys, and numbers, booleans and nulls stay as they are.
pub proof fn law_masking_keeps_shape(v: JsonView)
    ensures
        same_shape(masked(v), v),
    decreases v,
{
    match v {
        JsonView::Array(items) => {
            assert forall|i: int| 0 <= i < items.len() implies same_shape(
                #[trigger] masked(v)->Array_0[i],
                items[i],
            ) by {
                law_masking_keeps_shape(items[i]);
            }
        },
        JsonView::Object(members) => {
            assert forall|i: int| 0 <= i < members.len() implies (#[trigger] masked(
                v,
            )->Object_0[i]).0 == members[i].0 && same_shape(
                masked(v)->Object_0[i].1,
                members[i].1,
            ) by {
                law_masking_keeps_shape(members[i].1);
            }
        },
        _ => {},
    }
}

/// A string in a result is masked exactly as a prompt is scrubbed: its e-mail
/// addresses replaced by `[EMAIL]`, then its card numbers by `[CARD]`; and the
/// strings inside arrays and objects are masked in the same way, at any depth.
pub proof fn law_results_masked_as_prompts(v: JsonView)
    ensures
        v matches JsonView::Str(s) ==> masked(v) == JsonView::Str(
            regex_replace_all(
                card_pattern(),
                regex_replace_all(email_pattern(), s, "[EMAIL]"@),
                "[CARD]"@,
            ),
        ),
        v matches JsonView::Array(items) ==> masked(v) matches JsonView::Array(out) && out.len()
            == items.len() && forall|i: int| 0 <= i < items.len() ==> out[i] == masked(
            #[trigger] items[i],
        ),
        v matches JsonView::Object(members) ==> masked(v) matches JsonView::Object(out)
            && out.len() == members.len() && forall|i: int|
            0 <= i < members.len() ==> out[i] == (
                (#[trigger] members[i]).0,
                masked(members[i].1),
            ),
{
}

/// Masking the string of a result gives the same text as scrubbing that text as a prompt.
pub proof fn law_string_results_match_scrubbed_prompts(s: Seq<char>)
    ensures
        masked(JsonView::Str(s)) == JsonView::Str(mask_text(s)),
        mask_text(s) == regex_replace_all(
            card_pattern(),
            regex_replace_all(email_pattern(), s, "[EMAIL]"@),
            "[CARD]"@,
        ),
{
}

} // verus!
