//! Token-usage accounting: the usage a run reports, as JSON, and the running
//! totals over several runs.

use vstd::prelude::*;
use crate::json::{
    entries_get, entries_set, lemma_entries_get_set, lemma_find_key_push, json_as_i64, json_clone, json_get, json_int, json_set,
    json_settable, Json, JsonValue};
use crate::protocol::{usage_view, TokenUsage};

verus! {

/// The integer stored in an optional JSON value, or 0.
pub open spec fn int_or_zero(v: Option<Json>) -> int {
    match v {
        Some(j) => match json_as_i64(j) {
            Some(i) => i as int,
            None => 0,
        },
        None => 0,
    }
}

/// The counter `field` of `entries` after adding the same counter of `new_entry`.
pub open spec fn add_counter(entries: Seq<(Seq<char>, Json)>, new_entry: Json, field: Seq<char>) -> Seq<
    (Seq<char>, Json),
> {
    entries_set(
        entries,
        field,
        json_int(int_or_zero(entries_get(entries, field)) + int_or_zero(json_get(new_entry, field))),
    )
}

/// Does that sum fit in an `i64`?
pub open spec fn add_counter_fits(entries: Seq<(Seq<char>, Json)>, new_entry: Json, field: Seq<char>) -> bool {
    let s = int_or_zero(entries_get(entries, field)) + int_or_zero(json_get(new_entry, field));
    i64::MIN <= s && s <= i64::MAX
}

/// All four counters added, in the order total, prompt, completion,
/// cache_hit_prompt.
pub open spec fn add_counters(e: Seq<(Seq<char>, Json)>, n: Json) -> Seq<(Seq<char>, Json)> {
    add_counter(
        add_counter(add_counter(add_counter(e, n, "total"@), n, "prompt"@), n, "completion"@),
        n,
        "cache_hit_prompt"@,
    )
}

/// Do all four sums fit?
pub open spec fn add_counters_fit(e: Seq<(Seq<char>, Json)>, n: Json) -> bool {
    let e1 = add_counter(e, n, "total"@);
    let e2 = add_counter(e1, n, "prompt"@);
    let e3 = add_counter(e2, n, "completion"@);
    &&& add_counter_fits(e, n, "total"@)
    &&& add_counter_fits(e1, n, "prompt"@)
    &&& add_counter_fits(e2, n, "completion"@)
    &&& add_counter_fits(e3, n, "cache_hit_prompt"@)
}

/// One model's usage merged in: counters added to an existing object entry,
/// anything else replaced.
pub open spec fn merge_one(existing: Json, key: Seq<char>, new_entry: Json) -> Json {
    match json_get(existing, key) {
        Some(Json::Object(e)) => json_set(existing, key, Json::Object(add_counters(e, new_entry))),
        _ => json_set(existing, key, new_entry),
    }
}

/// Can that merge be done without overflow or a non-object target?
pub open spec fn merge_one_ok(existing: Json, key: Seq<char>, new_entry: Json) -> bool {
    match json_get(existing, key) {
        Some(Json::Object(e)) => add_counters_fit(e, new_entry),
        _ => json_settable(existing),
    }
}

/// Every entry of `entries` merged in, in order.
pub open spec fn merge_all(existing: Json, entries: Seq<(Seq<char>, Json)>) -> Json
    decreases entries.len(),
{
    if entries.len() == 0 {
        existing
    } else {
        let last = entries.last();
        merge_one(merge_all(existing, entries.drop_last()), last.0, last.1)
    }
}

/// Can every step of that merge be done?
pub open spec fn merge_all_ok(existing: Json, entries: Seq<(Seq<char>, Json)>) -> bool
    decreases entries.len(),
{
    if entries.len() == 0 {
        true
    } else {
        let last = entries.last();
        merge_all_ok(existing, entries.drop_last()) && merge_one_ok(
            merge_all(existing, entries.drop_last()),
            last.0,
            last.1,
        )
    }
}

/// The running totals after adding `new_val`: for each model in `new_val`,
/// its counters are added to that model's existing counters.
pub open spec fn merge_usage(existing: Json, new_val: Json) -> Json {
    match new_val {
        Json::Object(es) => merge_all(existing, es),
        _ => existing,
    }
}

/// Can `merge_token_usage(existing, new_val)` run without an overflow or a
/// write into a value that is neither an object nor null?
pub open spec fn merge_usage_ok(existing: Json, new_val: Json) -> bool {
    match new_val {
        Json::Object(es) => merge_all_ok(existing, es),
        _ => true,
    }
}

/// The JSON object for one model's counters.
pub open spec fn usage_entry_json(t: TokenUsage) -> Json {
    Json::Object(
        seq![
            ("total"@, json_int(t.total as int)),
            ("prompt"@, json_int(t.prompt as int)),
            ("completion"@, json_int(t.completion as int)),
            ("cache_hit_prompt"@, json_int(t.cache_hit_prompt as int)),
        ],
    )
}

/// The entries of the usage object built from `u`.
pub open spec fn usage_entries(u: Seq<(Seq<char>, TokenUsage)>) -> Seq<(Seq<char>, Json)>
    decreases u.len(),
{
    if u.len() == 0 {
        Seq::empty()
    } else {
        entries_set(usage_entries(u.drop_last()), u.last().0, usage_entry_json(u.last().1))
    }
}

/// The JSON object for reported usage (model name to counters).
pub open spec fn usage_json(u: Seq<(Seq<char>, TokenUsage)>) -> Json {
    Json::Object(usage_entries(u))
}

fn counter_json(t: &TokenUsage) -> (r: JsonValue)
    ensures
        r@ == usage_entry_json(*t),
{
    let mut o = JsonValue::empty_object();
    o.set("total", JsonValue::from_i64(t.total));
    o.set("prompt", JsonValue::from_i64(t.prompt));
    o.set("completion", JsonValue::from_i64(t.completion));
    o.set("cache_hit_prompt", JsonValue::from_i64(t.cache_hit_prompt));
    proof {
        reveal_strlit("total");
        reveal_strlit("prompt");
        reveal_strlit("completion");
        reveal_strlit("cache_hit_prompt");
        assert("total"@.len() == 5);
        assert("prompt"@.len() == 6);
        assert("completion"@.len() == 10);
        assert("cache_hit_prompt"@.len() == 16);
        let e0 = Seq::<(Seq<char>, Json)>::empty();
        let e1 = e0.push(("total"@, json_int(t.total as int)));
        let e2 = e1.push(("prompt"@, json_int(t.prompt as int)));
        let e3 = e2.push(("completion"@, json_int(t.completion as int)));
        lemma_find_key_push(e0, e1.last(), "total"@);
        lemma_find_key_push(e0, e1.last(), "prompt"@);
        lemma_find_key_push(e0, e1.last(), "completion"@);
        lemma_find_key_push(e0, e1.last(), "cache_hit_prompt"@);
        lemma_find_key_push(e1, e2.last(), "prompt"@);
        lemma_find_key_push(e1, e2.last(), "completion"@);
        lemma_find_key_push(e1, e2.last(), "cache_hit_prompt"@);
        lemma_find_key_push(e2, e3.last(), "completion"@);
        lemma_find_key_push(e2, e3.last(), "cache_hit_prompt"@);
        lemma_find_key_push(e3, ("cache_hit_prompt"@, json_int(t.cache_hit_prompt as int)), "cache_hit_prompt"@);
        let e4 = e3.push(("cache_hit_prompt"@, json_int(t.cache_hit_prompt as int)));
        assert(e4 =~= seq![
            ("total"@, json_int(t.total as int)),
            ("prompt"@, json_int(t.prompt as int)),
            ("completion"@, json_int(t.completion as int)),
            ("cache_hit_prompt"@, json_int(t.cache_hit_prompt as int)),
        ]);
    }
    o
}

/// The JSON object for reported usage, as `serde_json::to_value` builds it
/// from the model-to-counters map.
pub fn usage_to_json(u: &Vec<(String, TokenUsage)>) -> (r: JsonValue)
    ensures
        r@ == usage_json(usage_view(u@)),
{
    let mut o = JsonValue::empty_object();
    let mut i: usize = 0;
    while i < u.len()
        invariant
            i <= u@.len(),
            o@ == usage_json(usage_view(u@.take(i as int))),
        decreases u@.len() - i,
    {
        let c = counter_json(&u[i].1);
        o.set(u[i].0.as_str(), c);
        proof {
            let t = usage_view(u@.take(i + 1));
            assert(t.drop_last() =~= usage_view(u@.take(i as int)));
            assert(t.last() == (u@[i as int].0@, u@[i as int].1));
        }
        i = i + 1;
    }
    assert(u@.take(u@.len() as int) =~= u@);
    o
}

fn add_counter_exec(obj: &mut JsonValue, new_entry: &JsonValue, field: &str)
    requires
        old(obj)@ is Object,
        add_counter_fits(old(obj)@->Object_0, new_entry@, field@),
    ensures
        final(obj)@ == Json::Object(add_counter(old(obj)@->Object_0, new_entry@, field@)),
{
    let add = match new_entry.get(field) {
        Some(x) => match x.as_i64() {
            Some(i) => i,
            None => 0,
        },
        None => 0,
    };
    let cur = match obj.get(field) {
        Some(x) => match x.as_i64() {
            Some(i) => i,
            None => 0,
        },
        None => 0,
    };
    obj.set(field, JsonValue::from_i64(cur + add));
}

/// Adds the token counts of `new_val` to `existing`: for each model in
/// `new_val`, its `total`, `prompt`, `completion` and `cache_hit_prompt`
/// counters are added to the model's counters in `existing` when that is an
/// object; otherwise the model's entry is written as it comes.
pub fn merge_token_usage(existing: JsonValue, new_val: JsonValue) -> (r: JsonValue)
    requires
        merge_usage_ok(existing@, new_val@),
    ensures
        r@ == merge_usage(existing@, new_val@),
{
    let mut existing = existing;
    match &new_val {
        JsonValue::Object(entries) => {
            let ghost ev = crate::json::entries_view(entries@);
            proof {
                crate::json::lemma_entries_view(entries@);
            }
            let ghost start = existing@;
            let mut i: usize = 0;
            while i < entries.len()
                invariant
                    i <= entries@.len(),
                    ev == crate::json::entries_view(entries@),
                    ev.len() == entries@.len(),
                    forall|k: int| 0 <= k < entries@.len() ==> #[trigger] ev[k] == (entries@[k].0@, entries@[k].1@),
                    merge_all_ok(start, ev),
                    existing@ == merge_all(start, ev.take(i as int)),
                decreases entries@.len() - i,
            {
                let key = entries[i].0.as_str();
                let new_entry = &entries[i].1;
                proof {
                    lemma_merge_all_ok_prefix(start, ev, i + 1);
                    assert(ev.take(i + 1).drop_last() =~= ev.take(i as int));
                    assert(ev.take(i + 1).last() == ev[i as int]);
                }
                let target = match existing.get(key) {
                    Some(x) => json_clone(x),
                    None => JsonValue::Null,
                };
                match target {
                    JsonValue::Object(e) => {
                        let mut obj = JsonValue::Object(e);
                        add_counter_exec(&mut obj, new_entry, "total");
                        add_counter_exec(&mut obj, new_entry, "prompt");
                        add_counter_exec(&mut obj, new_entry, "completion");
                        add_counter_exec(&mut obj, new_entry, "cache_hit_prompt");
                        existing.set(key, obj);
                    },
                    _ => {
                        existing.set(key, json_clone(new_entry));
                    },
                }
                i = i + 1;
            }
            assert(ev.take(entries@.len() as int) =~= ev);
        },
        _ => {},
    }
    existing
}

/// The four counter names differ from one another.
proof fn lemma_counter_names_differ()
    ensures
        "total"@ != "prompt"@,
        "total"@ != "completion"@,
        "total"@ != "cache_hit_prompt"@,
        "prompt"@ != "completion"@,
        "prompt"@ != "cache_hit_prompt"@,
        "completion"@ != "cache_hit_prompt"@,
{
    reveal_strlit("total");
    reveal_strlit("prompt");
    reveal_strlit("completion");
    reveal_strlit("cache_hit_prompt");
    assert("total"@.len() == 5);
    assert("prompt"@.len() == 6);
    assert("completion"@.len() == 10);
    assert("cache_hit_prompt"@.len() == 16);
}

/// Reporting a model's usage adds each of its four counters to the running
/// totals: where the totals already hold counters for that model, the new
/// total, prompt, completion and cache-hit counts are the old ones plus the
/// reported ones (a missing or non-integer counter counts as 0); a model not
/// yet in the totals is recorded as reported; every other model keeps its
/// entry.
pub proof fn law_usage_counters_add(existing: Json, model: Seq<char>, reported: Json, field: Seq<char>, other: Seq<char>)
    requires
        existing is Object,
        merge_usage_ok(existing, Json::Object(seq![(model, reported)])),
        field == "total"@ || field == "prompt"@ || field == "completion"@ || field == "cache_hit_prompt"@,
        other != model,
    ensures
        ({
            let totals = merge_usage(existing, Json::Object(seq![(model, reported)]));
            &&& json_get(totals, other) == json_get(existing, other)
            &&& match json_get(existing, model) {
                Some(Json::Object(before)) => match json_get(totals, model) {
                    Some(Json::Object(after)) => int_or_zero(entries_get(after, field)) == int_or_zero(
                        entries_get(before, field),
                    ) + int_or_zero(json_get(reported, field)),
                    _ => false,
                },
                _ => json_get(totals, model) == Some(reported),
            }
        }),
{
    let one = seq![(model, reported)];
    assert(one.drop_last() =~= Seq::<(Seq<char>, Json)>::empty());
    assert(one.last() == (model, reported));
    let e_all = existing->Object_0;
    let totals = merge_usage(existing, Json::Object(one));
    assert(totals == merge_one(existing, model, reported));
    assert(merge_one_ok(existing, model, reported));
    lemma_counter_names_differ();
    match json_get(existing, model) {
        Some(Json::Object(before)) => {
            let n = reported;
            let e1 = add_counter(before, n, "total"@);
            let e2 = add_counter(e1, n, "prompt"@);
            let e3 = add_counter(e2, n, "completion"@);
            let e4 = add_counter(e3, n, "cache_hit_prompt"@);
            assert(add_counters_fit(before, n));
            lemma_entries_get_set(e_all, model, Json::Object(e4), model);
            lemma_entries_get_set(e_all, model, Json::Object(e4), other);
            lemma_entries_get_set(before, "total"@, json_int(int_or_zero(entries_get(before, "total"@)) + int_or_zero(json_get(n, "total"@))), field);
            lemma_entries_get_set(e1, "prompt"@, json_int(int_or_zero(entries_get(e1, "prompt"@)) + int_or_zero(json_get(n, "prompt"@))), field);
            lemma_entries_get_set(e2, "completion"@, json_int(int_or_zero(entries_get(e2, "completion"@)) + int_or_zero(json_get(n, "completion"@))), field);
            lemma_entries_get_set(e3, "cache_hit_prompt"@, json_int(int_or_zero(entries_get(e3, "cache_hit_prompt"@)) + int_or_zero(json_get(n, "cache_hit_prompt"@))), field);
            lemma_entries_get_set(before, "total"@, json_int(int_or_zero(entries_get(before, "total"@)) + int_or_zero(json_get(n, "total"@))), "prompt"@);
            lemma_entries_get_set(before, "total"@, json_int(int_or_zero(entries_get(before, "total"@)) + int_or_zero(json_get(n, "total"@))), "completion"@);
            lemma_entries_get_set(before, "total"@, json_int(int_or_zero(entries_get(before, "total"@)) + int_or_zero(json_get(n, "total"@))), "cache_hit_prompt"@);
            lemma_entries_get_set(e1, "prompt"@, json_int(int_or_zero(entries_get(e1, "prompt"@)) + int_or_zero(json_get(n, "prompt"@))), "completion"@);
            lemma_entries_get_set(e1, "prompt"@, json_int(int_or_zero(entries_get(e1, "prompt"@)) + int_or_zero(json_get(n, "prompt"@))), "cache_hit_prompt"@);
            lemma_entries_get_set(e2, "completion"@, json_int(int_or_zero(entries_get(e2, "completion"@)) + int_or_zero(json_get(n, "completion"@))), "cache_hit_prompt"@);
        },
        _ => {
            lemma_entries_get_set(e_all, model, reported, model);
            lemma_entries_get_set(e_all, model, reported, other);
        },
    }
}

proof fn lemma_merge_all_ok_prefix(start: Json, es: Seq<(Seq<char>, Json)>, k: int)
    requires
        0 <= k <= es.len(),
        merge_all_ok(start, es),
    ensures
        merge_all_ok(start, es.take(k)),
    decreases es.len() - k,
{
    if k < es.len() {
        assert(es.drop_last().len() == es.len() - 1);
        lemma_merge_all_ok_prefix(start, es.drop_last(), k);
        assert(es.drop_last().take(k) =~= es.take(k));
    } else {
        assert(es.take(k) =~= es);
    }
}

} // verus!
