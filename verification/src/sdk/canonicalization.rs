//! Validation of canonical (deterministic) CBOR-style encodings.
use vstd::prelude::*;
use vstd::string::*;

use crate::sdk::SdkError;
use crate::text::{decimal, i64_to_decimal, seq_lt, signed_decimal, str_lt, u64_to_decimal};

verus! {

/// A decoded value together with the encoding choices that canonical form constrains.
#[allow(inconsistent_fields)]
pub enum CanonicalValue {
    Null,
    Bool(bool),
    Unsigned { value: u64, byte_len: u8 },
    Negative { value: i64, byte_len: u8 },
    Bytes { data: Vec<u8>, indefinite: bool },
    Text { data: String, indefinite: bool },
    Array { items: Vec<CanonicalValue>, indefinite: bool },
    Mapping { entries: Vec<(String, CanonicalValue)>, indefinite: bool },
}

/// The fewest argument bytes (1, 2, 4 or 8) that hold `value`.
pub open spec fn spec_min_bytes(value: u64) -> u8 {
    if value <= 0xff {
        1
    } else if value <= 0xffff {
        2
    } else if value <= 0xffff_ffff {
        4
    } else {
        8
    }
}

pub open spec fn indefinite_error(label: Seq<char>) -> Seq<char> {
    label + " uses indefinite length encoding"@
}

pub open spec fn unsigned_error(value: u64, byte_len: u8) -> Option<Seq<char>> {
    if byte_len != spec_min_bytes(value) {
        Some("unsigned integer "@ + decimal(value as nat) + " uses "@ + decimal(byte_len as nat)
            + " bytes (expected "@ + decimal(spec_min_bytes(value) as nat) + ")"@)
    } else {
        None
    }
}

/// The unsigned argument a negative value is encoded with: `-1 - value`.
pub open spec fn negative_argument(value: i64) -> u64 {
    (-1 - value) as u64
}

pub open spec fn negative_error(value: i64, byte_len: u8) -> Option<Seq<char>> {
    if value >= 0 {
        Some("negative integer must be less than zero"@)
    } else if byte_len != spec_min_bytes(negative_argument(value)) {
        Some("negative integer "@ + signed_decimal(value as int) + " uses "@ + decimal(byte_len as nat)
            + " bytes (expected "@ + decimal(spec_min_bytes(negative_argument(value)) as nat) + ")"@)
    } else {
        None
    }
}

/// Map keys are in strictly increasing order.
pub open spec fn keys_strictly_ordered(entries: Seq<(String, CanonicalValue)>) -> bool {
    forall|i: int| 0 < i < entries.len() ==> seq_lt(entries[i - 1].0@, #[trigger] entries[i].0@)
}

/// The first canonicalization error of a value, in traversal order, or `None`.
pub open spec fn value_error(v: CanonicalValue) -> Option<Seq<char>>
    decreases v,
{
    match v {
        CanonicalValue::Null => None,
        CanonicalValue::Bool(_) => None,
        CanonicalValue::Unsigned { value, byte_len } => unsigned_error(value, byte_len),
        CanonicalValue::Negative { value, byte_len } => negative_error(value, byte_len),
        CanonicalValue::Bytes { indefinite, .. } => if indefinite { Some(indefinite_error("bytes"@)) } else { None },
        CanonicalValue::Text { indefinite, .. } => if indefinite { Some(indefinite_error("text"@)) } else { None },
        CanonicalValue::Array { items, indefinite } => if indefinite {
            Some(indefinite_error("array"@))
        } else {
            items_error(items@)
        },
        CanonicalValue::Mapping { entries, indefinite } => if indefinite {
            Some(indefinite_error("map"@))
        } else if !keys_strictly_ordered(entries@) {
            Some("map keys must be strictly lexicographic"@)
        } else {
            entries_error(entries@)
        },
    }
}

/// The first error among the items, in order.
pub open spec fn items_error(items: Seq<CanonicalValue>) -> Option<Seq<char>>
    decreases items,
{
    if items.len() == 0 {
        None
    } else if value_error(items[0]) is Some {
        value_error(items[0])
    } else {
        items_error(items.drop_first())
    }
}

/// The first error among the entries' values, in order.
pub open spec fn entries_error(entries: Seq<(String, CanonicalValue)>) -> Option<Seq<char>>
    decreases entries,
{
    if entries.len() == 0 {
        None
    } else if value_error(entries[0].1) is Some {
        value_error(entries[0].1)
    } else {
        entries_error(entries.drop_first())
    }
}

pub fn min_bytes_unsigned(value: u64) -> (r: u8)
    ensures
        r == spec_min_bytes(value),
{
    if value <= 0xff {
        1
    } else if value <= 0xffff {
        2
    } else if value <= 0xffff_ffff {
        4
    } else {
        8
    }
}

fn canonicalization(message: String) -> (r: Result<(), SdkError>)
    ensures
        r matches Err(SdkError::Canonicalization(m)) && m@ == message@,
{
    Err(SdkError::Canonicalization(message))
}

fn ensure_definite(indefinite: bool, label: &str) -> (r: Result<(), SdkError>)
    ensures
        indefinite ==> (r matches Err(SdkError::Canonicalization(m)) && m@ == indefinite_error(label@)),
        !indefinite ==> r is Ok,
{
    if indefinite {
        return canonicalization(label.to_owned().concat(" uses indefinite length encoding"));
    }
    Ok(())
}

fn validate_unsigned(value: u64, byte_len: u8) -> (r: Result<(), SdkError>)
    ensures
        unsigned_error(value, byte_len) matches Some(msg) ==> (r matches Err(SdkError::Canonicalization(m)) && m@ == msg),
        unsigned_error(value, byte_len) is None ==> r is Ok,
{
    let expected = min_bytes_unsigned(value);
    if byte_len != expected {
        let msg = "unsigned integer ".to_owned().concat(u64_to_decimal(value).as_str()).concat(" uses ").concat(
            u64_to_decimal(byte_len as u64).as_str(),
        ).concat(" bytes (expected ").concat(u64_to_decimal(expected as u64).as_str()).concat(")");
        return canonicalization(msg);
    }
    Ok(())
}

fn validate_negative(value: i64, byte_len: u8) -> (r: Result<(), SdkError>)
    ensures
        negative_error(value, byte_len) matches Some(msg) ==> (r matches Err(SdkError::Canonicalization(m)) && m@ == msg),
        negative_error(value, byte_len) is None ==> r is Ok,
{
    if value >= 0 {
        return canonicalization("negative integer must be less than zero".to_owned());
    }
    let encoded: u64 = (-1 - value) as u64;
    let expected = min_bytes_unsigned(encoded);
    if byte_len != expected {
        let msg = "negative integer ".to_owned().concat(i64_to_decimal(value).as_str()).concat(" uses ").concat(
            u64_to_decimal(byte_len as u64).as_str(),
        ).concat(" bytes (expected ").concat(u64_to_decimal(expected as u64).as_str()).concat(")");
        return canonicalization(msg);
    }
    Ok(())
}

fn validate_map_order(entries: &Vec<(String, CanonicalValue)>) -> (r: Result<(), SdkError>)
    ensures
        keys_strictly_ordered(entries@) ==> r is Ok,
        !keys_strictly_ordered(entries@) ==> (r matches Err(SdkError::Canonicalization(m))
            && m@ == "map keys must be strictly lexicographic"@),
{
    let mut i: usize = 1;
    while i < entries.len()
        invariant
            1 <= i,
            forall|j: int| 0 < j < i && j < entries@.len() ==> seq_lt(entries@[j - 1].0@, #[trigger] entries@[j].0@),
        decreases entries.len() - i,
    {
        if !str_lt(entries[i - 1].0.as_str(), entries[i].0.as_str()) {
            return canonicalization("map keys must be strictly lexicographic".to_owned());
        }
        i = i + 1;
    }
    Ok(())
}

/// Checks that a value is in canonical form: integers use the fewest bytes, no item uses
/// indefinite-length encoding, and map keys are strictly increasing. The first violation,
/// in traversal order, is reported.
pub fn validate_canonicalization(value: &CanonicalValue) -> (r: Result<(), SdkError>)
    ensures
        value_error(*value) is None ==> r is Ok,
        value_error(*value) matches Some(msg) ==> (r matches Err(SdkError::Canonicalization(m)) && m@ == msg),
    decreases value,
{
    match value {
        CanonicalValue::Null | CanonicalValue::Bool(_) => Ok(()),
        CanonicalValue::Unsigned { value, byte_len } => validate_unsigned(*value, *byte_len),
        CanonicalValue::Negative { value, byte_len } => validate_negative(*value, *byte_len),
        CanonicalValue::Bytes { indefinite, .. } => ensure_definite(*indefinite, "bytes"),
        CanonicalValue::Text { indefinite, .. } => ensure_definite(*indefinite, "text"),
        CanonicalValue::Array { items, indefinite } => {
            let definite = ensure_definite(*indefinite, "array");
            if definite.is_err() {
                return definite;
            }
            let mut i: usize = 0;
            assert(items@.subrange(0, items@.len() as int) =~= items@);
            assert(value_error(*value) == items_error(items@));
            while i < items.len()
                invariant
                    i <= items.len(),
                    value_error(*value) == items_error(items@),
                    items_error(items@) == items_error(items@.subrange(i as int, items@.len() as int)),
                    forall|j: int| 0 <= j < items@.len() ==> decreases_to!(*value => #[trigger] items@[j]),
                decreases items.len() - i,
            {
                let ghost rest = items@.subrange(i as int, items@.len() as int);
                assert(rest[0] == items@[i as int]);
                let item_result = validate_canonicalization(&items[i]);
                if item_result.is_err() {
                    return item_result;
                }
                assert(rest.drop_first() =~= items@.subrange(i + 1, items@.len() as int));
                i = i + 1;
            }
            assert(items@.subrange(i as int, items@.len() as int) =~= Seq::<CanonicalValue>::empty());
            Ok(())
        },
        CanonicalValue::Mapping { entries, indefinite } => {
            let definite = ensure_definite(*indefinite, "map");
            if definite.is_err() {
                return definite;
            }
            let ordered = validate_map_order(entries);
            if ordered.is_err() {
                return ordered;
            }
            let mut i: usize = 0;
            assert(entries@.subrange(0, entries@.len() as int) =~= entries@);
            assert(value_error(*value) == entries_error(entries@));
            while i < entries.len()
                invariant
                    i <= entries.len(),
                    value_error(*value) == entries_error(entries@),
                    entries_error(entries@) == entries_error(entries@.subrange(i as int, entries@.len() as int)),
                    forall|j: int| 0 <= j < entries@.len() ==> decreases_to!(*value => #[trigger] entries@[j].1),
                decreases entries.len() - i,
            {
                let ghost rest = entries@.subrange(i as int, entries@.len() as int);
                assert(rest[0] == entries@[i as int]);
                let entry_result = validate_canonicalization(&entries[i].1);
                if entry_result.is_err() {
                    return entry_result;
                }
                assert(rest.drop_first() =~= entries@.subrange(i + 1, entries@.len() as int));
                i = i + 1;
            }
            assert(entries@.subrange(i as int, entries@.len() as int) =~= Seq::<(String, CanonicalValue)>::empty());
            Ok(())
        },
    }
}

/// A definite-length array is canonical exactly when every item is.
pub proof fn array_canonical_iff_items_canonical(items: Seq<CanonicalValue>)
    ensures
        items_error(items) is None <==> forall|i: int| 0 <= i < items.len() ==> (#[trigger] value_error(items[i])) is None,
    decreases items.len(),
{
    if items.len() > 0 {
        array_canonical_iff_items_canonical(items.drop_first());
        if items_error(items) is None {
            assert forall|i: int| 0 <= i < items.len() implies (#[trigger] value_error(items[i])) is None by {
                if i > 0 {
                    assert(items[i] == items.drop_first()[i - 1]);
                }
            }
        }
        if forall|i: int| 0 <= i < items.len() ==> (#[trigger] value_error(items[i])) is None {
            assert(value_error(items[0]) is None);
            assert forall|i: int| 0 <= i < items.drop_first().len() implies (#[trigger] value_error(items.drop_first()[i])) is None by {
                assert(items.drop_first()[i] == items[i + 1]);
            }
        }
    }
}

/// A definite-length map with strictly ordered keys is canonical exactly when every value
/// is.
pub proof fn map_canonical_iff_values_canonical(entries: Seq<(String, CanonicalValue)>)
    ensures
        entries_error(entries) is None <==> forall|i: int| 0 <= i < entries.len() ==> (#[trigger] value_error(
            entries[i].1)) is None,
    decreases entries.len(),
{
    if entries.len() > 0 {
        map_canonical_iff_values_canonical(entries.drop_first());
        if entries_error(entries) is None {
            assert forall|i: int| 0 <= i < entries.len() implies (#[trigger] value_error(entries[i].1)) is None by {
                if i > 0 {
                    assert(entries[i] == entries.drop_first()[i - 1]);
                }
            }
        }
        if forall|i: int| 0 <= i < entries.len() ==> (#[trigger] value_error(entries[i].1)) is None {
            assert(value_error(entries[0].1) is None);
            assert forall|i: int| 0 <= i < entries.drop_first().len() implies (#[trigger] value_error(
                entries.drop_first()[i].1)) is None by {
                assert(entries.drop_first()[i] == entries[i + 1]);
            }
        }
    }
}

/// The minimal byte length is the least of 1, 2, 4, 8 whose range holds the value.
pub proof fn min_bytes_is_least_sufficient(value: u64)
    ensures
        spec_min_bytes(value) == 1 <==> value < 0x100,
        spec_min_bytes(value) == 2 <==> (0x100 <= value && value < 0x1_0000),
        spec_min_bytes(value) == 4 <==> (0x1_0000 <= value && value < 0x1_0000_0000),
        spec_min_bytes(value) == 8 <==> 0x1_0000_0000 <= value,
{
}

/// The fewest of 1, 2, 4 or 8 bytes whose range holds `n`.
pub open spec fn least_width(n: int) -> int {
    if n < 0x100 {
        1
    } else if n < 0x1_0000 {
        2
    } else if n < 0x1_0000_0000 {
        4
    } else {
        8
    }
}

/// What canonical form asks of each kind of value: an integer uses the fewest argument
/// bytes (for a negative value, those of `-1 - value`), and a negative value is below zero;
/// a byte string, text, array or map uses definite-length encoding; an array's items are
/// canonical; a map's keys are strictly increasing and its values canonical.
pub proof fn canonical_exactly_when(v: CanonicalValue)
    ensures
        value_error(v) is None <==> (match v {
            CanonicalValue::Null => true,
            CanonicalValue::Bool(_) => true,
            CanonicalValue::Unsigned { value, byte_len } => byte_len == least_width(value as int),
            CanonicalValue::Negative { value, byte_len } => value < 0 && byte_len == least_width(-1 - value),
            CanonicalValue::Bytes { indefinite, .. } => !indefinite,
            CanonicalValue::Text { indefinite, .. } => !indefinite,
            CanonicalValue::Array { items, indefinite } => !indefinite
                && forall|i: int| 0 <= i < items@.len() ==> (#[trigger] value_error(items@[i])) is None,
            CanonicalValue::Mapping { entries, indefinite } => !indefinite
                && (forall|i: int| 0 < i < entries@.len() ==> seq_lt(entries@[i - 1].0@, #[trigger] entries@[i].0@))
                && forall|i: int| 0 <= i < entries@.len() ==> (#[trigger] value_error(entries@[i].1)) is None,
        }),
{
    match v {
        CanonicalValue::Array { items, indefinite } => {
            array_canonical_iff_items_canonical(items@);
        },
        CanonicalValue::Mapping { entries, indefinite } => {
            map_canonical_iff_values_canonical(entries@);
        },
        CanonicalValue::Negative { value, byte_len } => {
            if value < 0 {
                assert(negative_argument(value) == -1 - value);
            }
        },
        _ => {},
    }
}

/// A byte string, text, array or map in indefinite-length encoding is never canonical:
/// validation reports that the value uses indefinite length encoding.
pub proof fn indefinite_length_is_never_canonical(v: CanonicalValue)
    ensures
        v matches CanonicalValue::Bytes { indefinite: true, .. }
            ==> value_error(v) == Some("bytes uses indefinite length encoding"@),
        v matches CanonicalValue::Text { indefinite: true, .. }
            ==> value_error(v) == Some("text uses indefinite length encoding"@),
        v matches CanonicalValue::Array { indefinite: true, .. }
            ==> value_error(v) == Some("array uses indefinite length encoding"@),
        v matches CanonicalValue::Mapping { indefinite: true, .. }
            ==> value_error(v) == Some("map uses indefinite length encoding"@),
{
    reveal_strlit("bytes");
    reveal_strlit("text");
    reveal_strlit("array");
    reveal_strlit("map");
    reveal_strlit(" uses indefinite length encoding");
    reveal_strlit("bytes uses indefinite length encoding");
    reveal_strlit("text uses indefinite length encoding");
    reveal_strlit("array uses indefinite length encoding");
    reveal_strlit("map uses indefinite length encoding");
    assert(indefinite_error("bytes"@) =~= "bytes uses indefinite length encoding"@);
    assert(indefinite_error("text"@) =~= "text uses indefinite length encoding"@);
    assert(indefinite_error("array"@) =~= "array uses indefinite length encoding"@);
    assert(indefinite_error("map"@) =~= "map uses indefinite length encoding"@);
}

} // verus!
