//! The structured record that drives tag derivation, and the trusted
//! readers that extract its fields from untrusted JSON text.

use vstd::prelude::*;
use vstd::string::StringExecFns;

verus! {

/// The unsigned-integer member `key` of the JSON document `s`: `Some`
/// exactly when `s` is valid JSON with such a member of that type.
/// A function of the two texts alone.
pub uninterp spec fn u64_field(s: Seq<char>, key: Seq<char>) -> Option<u64>;

/// The string member `key` of the JSON document `s`: `Some` exactly when
/// `s` is valid JSON with such a member of that type. A function of the
/// two texts alone.
pub uninterp spec fn text_field(s: Seq<char>, key: Seq<char>) -> Option<Seq<char>>;

/// The decimal text, in the standard shortest display form, of the
/// numeric member `key` of the JSON document `s`: `Some` exactly when `s`
/// is valid JSON with such a member representable as a number. A function
/// of the two texts alone.
pub uninterp spec fn number_text_field(s: Seq<char>, key: Seq<char>) -> Option<Seq<char>>;

/// Relies on serde_json: `from_str::<Value>`, `Value::get` and
/// `Value::as_u64` read the unsigned-integer member `key` of `raw`.
#[verifier::external_body]
fn json_u64_field(raw: &str, key: &str) -> (r: Option<u64>)
    ensures
        r == u64_field(raw@, key@),
{
    serde_json::from_str::<serde_json::Value>(raw)
        .ok()
        .and_then(|v| v.get(key).and_then(serde_json::Value::as_u64))
}

/// Relies on serde_json: `from_str::<Value>`, `Value::get` and
/// `Value::as_str` read the string member `key` of `raw`.
#[verifier::external_body]
fn json_text_field(raw: &str, key: &str) -> (r: Option<String>)
    ensures
        match r {
            Some(t) => text_field(raw@, key@) == Some(t@),
            None => text_field(raw@, key@) is None,
        },
{
    serde_json::from_str::<serde_json::Value>(raw)
        .ok()
        .and_then(|v| v.get(key).and_then(serde_json::Value::as_str).map(|t| t.to_owned()))
}

/// Relies on serde_json (`from_str::<Value>`, `Value::get`, `Value::as_f64`)
/// and on the standard library's shortest decimal display of the number so
/// read, which both depend on the two texts alone.
#[verifier::external_body]
fn json_number_text_field(raw: &str, key: &str) -> (r: Option<String>)
    ensures
        match r {
            Some(t) => number_text_field(raw@, key@) == Some(t@),
            None => number_text_field(raw@, key@) is None,
        },
{
    serde_json::from_str::<serde_json::Value>(raw)
        .ok()
        .and_then(|v| v.get(key).and_then(serde_json::Value::as_f64))
        .map(|x| format!("{}", x))
}

/// The decimal digit character for `d` (0 to 9).
pub open spec fn dec_digit(d: nat) -> char {
    if d == 0 {
        '0'
    } else if d == 1 {
        '1'
    } else if d == 2 {
        '2'
    } else if d == 3 {
        '3'
    } else if d == 4 {
        '4'
    } else if d == 5 {
        '5'
    } else if d == 6 {
        '6'
    } else if d == 7 {
        '7'
    } else if d == 8 {
        '8'
    } else {
        '9'
    }
}

/// The decimal text of `n`, most significant digit first, no leading
/// zeros (a single `'0'` for zero).
pub open spec fn dec_of(n: nat) -> Seq<char>
    decreases n,
{
    if n < 10 {
        seq![dec_digit(n)]
    } else {
        dec_of(n / 10).push(dec_digit(n % 10))
    }
}

fn digit_str(d: u64) -> (r: &'static str)
    requires
        d < 10,
    ensures
        r@ == seq![dec_digit(d as nat)],
{
    let r: &'static str = if d == 0 {
        "0"
    } else if d == 1 {
        "1"
    } else if d == 2 {
        "2"
    } else if d == 3 {
        "3"
    } else if d == 4 {
        "4"
    } else if d == 5 {
        "5"
    } else if d == 6 {
        "6"
    } else if d == 7 {
        "7"
    } else if d == 8 {
        "8"
    } else {
        "9"
    };
    proof {
        reveal_strlit("0");
        reveal_strlit("1");
        reveal_strlit("2");
        reveal_strlit("3");
        reveal_strlit("4");
        reveal_strlit("5");
        reveal_strlit("6");
        reveal_strlit("7");
        reveal_strlit("8");
        reveal_strlit("9");
        assert(r@ =~= seq![dec_digit(d as nat)]);
    }
    r
}

/// The decimal text of `n`.
pub fn u64_to_dec(n: u64) -> (r: String)
    ensures
        r@ == dec_of(n as nat),
    decreases n,
{
    if n < 10 {
        digit_str(n).to_owned()
    } else {
        let mut s = u64_to_dec(n / 10);
        let d = digit_str(n % 10);
        s.append(d);
        proof {
            assert(dec_of((n / 10) as nat).push(dec_digit((n % 10) as nat)) =~= dec_of(
                (n / 10) as nat,
            ) + seq![dec_digit((n % 10) as nat)]);
        }
        s
    }
}

/// Mathematical image of a `ProductRecord`.
#[verifier::ext_equal]
pub struct ProductRecordV {
    pub price: u64,
    pub discount_text: Seq<char>,
    pub brand: Seq<char>,
}

/// The fields of the structured payload that tag derivation reads,
/// each defaulted when absent or malformed. The discount percentage is
/// held as its decimal display text: the guest core holds no floating
/// point, and the text form is all that tagging and callers need.
#[derive(Debug, Clone, PartialEq, Eq)]
pub struct ProductRecord {
    /// The `price` member; 0 when absent or not an unsigned integer.
    pub price: u64,
    /// Decimal text of the `discountPercentage` member; `"0"` when
    /// absent or not a number.
    pub discount_text: String,
    /// The `brand` member; empty when absent or not a string.
    pub brand: String,
}

impl View for ProductRecord {
    type V = ProductRecordV;

    open spec fn view(&self) -> ProductRecordV {
        ProductRecordV {
            price: self.price,
            discount_text: self.discount_text@,
            brand: self.brand@,
        }
    }
}

/// The record that all-default construction yields: price 0, discount
/// text `"0"`, empty brand.
pub open spec fn default_record() -> ProductRecordV {
    ProductRecordV { price: 0, discount_text: "0"@, brand: Seq::<char>::empty() }
}

impl Default for ProductRecord {
    /// The all-default record, substituted whole when no field of the
    /// input can be read.
    fn default() -> (r: ProductRecord)
        ensures
            r@ == default_record(),
    {
        let r = ProductRecord { price: 0, discount_text: "0".to_owned(), brand: String::new() };
        proof {
            assert(r@ =~= default_record());
        }
        r
    }
}

/// The record read from the text `s`: each field taken from the JSON
/// member of the same name, or defaulted when the text or the member
/// cannot be read.
pub open spec fn record_of_text(s: Seq<char>) -> ProductRecordV {
    ProductRecordV {
        price: match u64_field(s, "price"@) {
            Some(p) => p,
            None => 0,
        },
        discount_text: match number_text_field(s, "discountPercentage"@) {
            Some(t) => t,
            None => "0"@,
        },
        brand: match text_field(s, "brand"@) {
            Some(b) => b,
            None => Seq::<char>::empty(),
        },
    }
}

/// Reads the record out of `raw`, defaulting each unreadable field.
/// Never fails, whatever the text holds.
pub fn read_record(raw: &str) -> (r: ProductRecord)
    ensures
        r@ == record_of_text(raw@),
{
    let price = match json_u64_field(raw, "price") {
        Some(p) => p,
        None => 0,
    };
    let discount_text = match json_number_text_field(raw, "discountPercentage") {
        Some(t) => t,
        None => "0".to_owned(),
    };
    let brand = match json_text_field(raw, "brand") {
        Some(b) => b,
        None => String::new(),
    };
    let r = ProductRecord { price, discount_text, brand };
    proof {
        assert(r@ =~= record_of_text(raw@));
    }
    r
}

} // verus!
