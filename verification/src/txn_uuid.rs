//! Stable identifiers for transactions.
//!
//! Some tests of journal tools need the same identifier for the same
//! transaction on every run. The identifier is a version 5 UUID in the URL
//! namespace, of the URL `pta-generator:/<set>/<number>/<ts>[/<spec>]`,
//! where `ts` is the instant of the transaction in RFC 3339 and `spec` a
//! free specifier such as `audit`.

use crate::error::GenError;
use crate::setup::{time_format_error, time_format_text, SetSize};
use crate::text::{
    decimal, is_digit, lemma_decimal_digits, lemma_decimal_injective, lemma_first_separator,
    push_decimal,
};
use crate::time::{instant_rfc3339, instant_text, Civil, TxnTime};
use vstd::prelude::*;
use vstd::string::StringExecFns;

verus! {

/// The text of the version 5 UUID of a name in the URL namespace.
pub uninterp spec fn uuid_v5_text(name: Seq<char>) -> Seq<char>;

/// Calls `uuid::Uuid::new_v5` with the URL namespace and the bytes of
/// `name`, and writes the UUID out with its `Display`. The contract gives
/// the text a name and claims no more of it than that it depends on `name`
/// alone.
#[verifier::external_body]
fn url_uuid_v5(name: &str) -> (id: String)
    ensures
        id@ == uuid_v5_text(name@),
{
    uuid::Uuid::new_v5(&uuid::Uuid::NAMESPACE_URL, name.as_bytes()).to_string()
}

/// The text of a specifier, where there is one.
pub open spec fn spec_text(spec: Option<&str>) -> Option<Seq<char>> {
    match spec {
        Some(s) => Some(s@),
        None => None,
    }
}

/// The URL that names a transaction: the set, the number and the instant,
/// and at the end the specifier where there is one.
pub open spec fn source_text(
    set: SetSize,
    number: u32,
    instant: Seq<char>,
    spec: Option<Seq<char>>,
) -> Seq<char> {
    "pta-generator:/"@ + set.token() + "/"@ + decimal(number as nat) + "/"@ + instant + match spec {
        Some(s) => "/"@ + s,
        None => Seq::empty(),
    }
}

/// What stands in the URL of a transaction before its number.
pub open spec fn source_head(set: SetSize) -> Seq<char> {
    "pta-generator:/"@ + set.token() + "/"@
}

/// What stands in the URL of a transaction from its number on.
pub open spec fn source_body(number: u32, instant: Seq<char>, spec: Option<Seq<char>>) -> Seq<
    char,
> {
    decimal(number as nat) + seq!['/'] + (instant + match spec {
        Some(s) => seq!['/'] + s,
        None => Seq::empty(),
    })
}

/// The URL is its head and its body.
proof fn lemma_source_parts(set: SetSize, number: u32, instant: Seq<char>, spec: Option<Seq<char>>)
    ensures
        source_text(set, number, instant, spec) == source_head(set) + source_body(
            number,
            instant,
            spec,
        ),
{
    reveal_strlit("/");
    assert("/"@ =~= seq!['/']);
    assert(source_text(set, number, instant, spec) =~= source_head(set) + source_body(
        number,
        instant,
        spec,
    ));
}

/// The head is 19 characters long, and the last digit of the token in it
/// tells the size of the set.
proof fn lemma_source_head(set: SetSize)
    ensures
        source_head(set).len() == 19,
        source_head(set)[17] == match set {
            SetSize::Sz1e1 => '1',
            SetSize::Sz1e2 => '2',
            SetSize::Sz1e3 => '3',
            SetSize::Sz1e4 => '4',
            SetSize::Sz1e5 => '5',
            SetSize::Sz1e6 => '6',
        },
{
    reveal_strlit("pta-generator:/");
    reveal_strlit("/");
    reveal_strlit("1e1");
    reveal_strlit("1e2");
    reveal_strlit("1e3");
    reveal_strlit("1e4");
    reveal_strlit("1e5");
    reveal_strlit("1e6");
    assert(set.token().len() == 3);
    assert(source_head(set)[17] == set.token()[2]);
}

/// The URL names one transaction only: two URLs are the same only where
/// the set, the number, the instant and the specifier are. An instant in
/// RFC 3339 holds no `/`, and that is asked of both. So the identifier is
/// derived from a text that differs wherever one of the four does; that two
/// different texts get different identifiers is the promise of the hash,
/// and not stated here.
pub proof fn lemma_source_text_injective(
    set1: SetSize,
    number1: u32,
    instant1: Seq<char>,
    spec1: Option<Seq<char>>,
    set2: SetSize,
    number2: u32,
    instant2: Seq<char>,
    spec2: Option<Seq<char>>,
)
    requires
        !instant1.contains('/'),
        !instant2.contains('/'),
        source_text(set1, number1, instant1, spec1) == source_text(
            set2,
            number2,
            instant2,
            spec2,
        ),
    ensures
        set1 == set2,
        number1 == number2,
        instant1 == instant2,
        spec1 == spec2,
{
    let s1 = source_text(set1, number1, instant1, spec1);
    let s2 = source_text(set2, number2, instant2, spec2);
    let body1 = source_body(number1, instant1, spec1);
    let body2 = source_body(number2, instant2, spec2);
    lemma_source_parts(set1, number1, instant1, spec1);
    lemma_source_parts(set2, number2, instant2, spec2);
    lemma_source_head(set1);
    lemma_source_head(set2);
    assert(s1[17] == source_head(set1)[17]);
    assert(s2[17] == source_head(set2)[17]);
    assert(body1 =~= s1.subrange(19, s1.len() as int));
    assert(body2 =~= s2.subrange(19, s2.len() as int));
    lemma_source_body_injective(number1, instant1, spec1, number2, instant2, spec2);
}

/// Two bodies are the same only where the number, the instant and the
/// specifier are.
proof fn lemma_source_body_injective(
    number1: u32,
    instant1: Seq<char>,
    spec1: Option<Seq<char>>,
    number2: u32,
    instant2: Seq<char>,
    spec2: Option<Seq<char>>,
)
    requires
        !instant1.contains('/'),
        !instant2.contains('/'),
        source_body(number1, instant1, spec1) == source_body(number2, instant2, spec2),
    ensures
        number1 == number2,
        instant1 == instant2,
        spec1 == spec2,
{
    let d1 = decimal(number1 as nat);
    let d2 = decimal(number2 as nat);
    let rest1 = instant1 + match spec1 {
        Some(s) => seq!['/'] + s,
        None => Seq::<char>::empty(),
    };
    let rest2 = instant2 + match spec2 {
        Some(s) => seq!['/'] + s,
        None => Seq::<char>::empty(),
    };
    lemma_decimal_digits(number1 as nat);
    lemma_decimal_digits(number2 as nat);
    assert(!d1.contains('/')) by {
        if d1.contains('/') {
            let i = choose|i: int| 0 <= i < d1.len() && d1[i] == '/';
            assert(is_digit(d1[i]));
        }
    }
    assert(!d2.contains('/')) by {
        if d2.contains('/') {
            let i = choose|i: int| 0 <= i < d2.len() && d2[i] == '/';
            assert(is_digit(d2[i]));
        }
    }
    lemma_first_separator(d1, rest1, d2, rest2, '/');
    lemma_decimal_injective(number1 as nat, number2 as nat);
    match (spec1, spec2) {
        (Some(a), Some(b)) => {
            assert(rest1 =~= instant1 + seq!['/'] + a);
            assert(rest2 =~= instant2 + seq!['/'] + b);
            lemma_first_separator(instant1, a, instant2, b, '/');
        },
        (Some(a), None) => {
            assert(rest1 =~= instant1 + seq!['/'] + a);
            assert(rest2 =~= instant2);
            assert(rest1[instant1.len() as int] == '/');
            assert(instant2.contains(instant2[instant1.len() as int]));
        },
        (None, Some(b)) => {
            assert(rest2 =~= instant2 + seq!['/'] + b);
            assert(rest1 =~= instant1);
            assert(rest2[instant2.len() as int] == '/');
            assert(instant1.contains(instant1[instant2.len() as int]));
        },
        (None, None) => {
            assert(rest1 =~= instant1);
            assert(rest2 =~= instant2);
        },
    }
}

/// The identifier of the transaction of a set at a time: that of the URL
/// with the instant of the time; `None` where the instant cannot be written
/// out.
pub open spec fn txn_uuid_text(
    set: SetSize,
    number: u32,
    ts: Civil,
    spec: Option<Seq<char>>,
) -> Option<Seq<char>> {
    match instant_text(ts) {
        Some(instant) => Some(uuid_v5_text(source_text(set, number, instant, spec))),
        None => None,
    }
}

/// The URL that names a transaction, given its instant in RFC 3339.
pub fn uuid_source(set: &SetSize, number: u32, instant: &str, spec: Option<&str>) -> (url: String)
    ensures
        url@ == source_text(*set, number, instant@, spec_text(spec)),
{
    let mut url = String::new();
    url.append("pta-generator:/");
    url.append(set.str());
    url.append("/");
    push_decimal(&mut url, number as u64);
    url.append("/");
    url.append(instant);
    match spec {
        Some(s) => {
            url.append("/");
            url.append(s);
            assert(url@ =~= source_text(*set, number, instant@, spec_text(spec)));
        },
        None => {
            assert(url@ =~= source_text(*set, number, instant@, spec_text(spec)));
        },
    }
    url
}

/// The identifier of a transaction, given its instant in RFC 3339.
pub fn txn_uuid_at(set: &SetSize, number: u32, instant: &str, spec: Option<&str>) -> (id: String)
    ensures
        id@ == uuid_v5_text(source_text(*set, number, instant@, spec_text(spec))),
{
    let url = uuid_source(set, number, instant, spec);
    url_uuid_v5(url.as_str())
}

/// The stable identifier of a transaction: the same for the same set,
/// number, instant and specifier, whenever and wherever it is asked for.
/// There is one exactly where the instant of the time can be written out.
pub fn get_txn_uuid(set: &SetSize, number: u32, ts: &TxnTime, spec: Option<&str>) -> (r: Result<
    String,
    GenError,
>)
    ensures
        match r {
            Ok(id) => txn_uuid_text(*set, number, ts@, spec_text(spec)) == Some(id@),
            Err(e) => txn_uuid_text(*set, number, ts@, spec_text(spec)) is None && e.is(
                crate::error::ErrorKind::InvalidArgument,
                time_format_text(),
            ),
        },
{
    match instant_rfc3339(ts) {
        Some(instant) => Ok(txn_uuid_at(set, number, instant.as_str(), spec)),
        None => Err(time_format_error()),
    }
}

} // verus!
