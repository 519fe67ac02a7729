//! The name under which each push task stores its image.

use vstd::prelude::*;

verus! {

/// The character that stands for a single decimal digit.
pub open spec fn digit_char(d: nat) -> char {
    if d == 0 {
        '0'
    } else if d == 1 {
        '1'
    } else if d == 2 {
        '2'
    } else if d == 3 {
        '3'
    } else if d == 4 {
        '4'
    } else if d == 5 {
        '5'
    } else if d == 6 {
        '6'
    } else if d == 7 {
        '7'
    } else if d == 8 {
        '8'
    } else {
        '9'
    }
}

/// The decimal numeral of `n`, most significant digit first, without
/// leading zeros.
pub open spec fn decimal(n: nat) -> Seq<char>
    decreases n,
{
    if n < 10 {
        seq![digit_char(n)]
    } else {
        decimal(n / 10).push(digit_char(n % 10))
    }
}

/// The text between the host and the task index in a reference.
pub open spec fn repository_prefix() -> Seq<char> {
    "/test/this-"@
}

/// The text that closes a reference: the tag.
pub open spec fn tag_suffix() -> Seq<char> {
    ":latest"@
}

/// The reference of task `index` on `host`: `<host>/test/this-<index>:latest`.
pub open spec fn reference_text(host: Seq<char>, index: nat) -> Seq<char> {
    host + repository_prefix() + decimal(index) + tag_suffix()
}

/// A numeral is never empty.
pub proof fn lemma_decimal_nonempty(n: nat)
    ensures
        decimal(n).len() >= 1,
    decreases n,
{
    if n >= 10 {
        lemma_decimal_nonempty(n / 10);
    }
}

/// Two numbers with the same numeral are the same number.
pub proof fn lemma_decimal_injective(a: nat, b: nat)
    requires
        decimal(a) == decimal(b),
    ensures
        a == b,
    decreases a,
{
    if a < 10 {
        if b >= 10 {
            lemma_decimal_nonempty(b / 10);
            assert(decimal(b).len() >= 2);
        } else {
            assert(decimal(a)[0] == digit_char(a));
            assert(decimal(b)[0] == digit_char(b));
        }
    } else {
        if b < 10 {
            lemma_decimal_nonempty(a / 10);
            assert(decimal(a).len() >= 2);
        } else {
            let da = decimal(a / 10);
            let db = decimal(b / 10);
            let ca = digit_char(a % 10);
            let cb = digit_char(b % 10);
            assert(da == db) by {
                assert(da.push(ca).drop_last() == da);
                assert(db.push(cb).drop_last() == db);
            }
            assert(ca == cb) by {
                assert(da.push(ca).last() == ca);
                assert(db.push(cb).last() == cb);
            }
            lemma_decimal_injective(a / 10, b / 10);
            assert(a % 10 == b % 10);
        }
    }
}

/// The tasks of one run never share a reference: on one host, two task
/// indices with the same reference are the same index.
pub proof fn lemma_references_distinct(host: Seq<char>, i: nat, j: nat)
    requires
        reference_text(host, i) == reference_text(host, j),
    ensures
        i == j,
{
    let head = host + repository_prefix();
    let ri = reference_text(host, i);
    let rj = reference_text(host, j);
    let di = decimal(i);
    let dj = decimal(j);
    assert(ri.len() == head.len() + di.len() + tag_suffix().len());
    assert(rj.len() == head.len() + dj.len() + tag_suffix().len());
    assert(di.len() == dj.len());
    assert forall|k: int| 0 <= k < di.len() implies di[k] == dj[k] by {
        assert(ri[head.len() + k] == di[k]);
        assert(rj[head.len() + k] == dj[k]);
    }
    assert(di =~= dj);
    lemma_decimal_injective(i, j);
}

/// The one-character text of a decimal digit.
fn digit_text(d: usize) -> (text: &'static str)
    requires
        d < 10,
    ensures
        text@ == seq![digit_char(d as nat)],
{
    proof {
        reveal_strlit("0");
        reveal_strlit("1");
        reveal_strlit("2");
        reveal_strlit("3");
        reveal_strlit("4");
        reveal_strlit("5");
        reveal_strlit("6");
        reveal_strlit("7");
        reveal_strlit("8");
        reveal_strlit("9");
    }
    let text = if d == 0 {
        "0"
    } else if d == 1 {
        "1"
    } else if d == 2 {
        "2"
    } else if d == 3 {
        "3"
    } else if d == 4 {
        "4"
    } else if d == 5 {
        "5"
    } else if d == 6 {
        "6"
    } else if d == 7 {
        "7"
    } else if d == 8 {
        "8"
    } else {
        "9"
    };
    assert(text@ =~= seq![digit_char(d as nat)]);
    text
}

/// Appends the decimal numeral of `n` to `out`.
pub fn push_decimal(out: &mut String, n: usize)
    ensures
        final(out)@ == old(out)@ + decimal(n as nat),
    decreases n,
{
    if n >= 10 {
        push_decimal(out, n / 10);
    }
    out.append(digit_text(n % 10));
    proof {
        let d = seq![digit_char((n % 10) as nat)];
        if n >= 10 {
            assert(decimal(n as nat) =~= decimal((n / 10) as nat) + d);
            assert(out@ =~= old(out)@ + decimal(n as nat));
        } else {
            assert(decimal(n as nat) =~= d);
        }
    }
}

/// Writes the reference of task `index` on `host`:
/// `<host>/test/this-<index>:latest`.
pub fn reference_name(host: &str, index: usize) -> (name: String)
    ensures
        name@ == reference_text(host@, index as nat),
{
    let mut name = String::from_str(host);
    name.append("/test/this-");
    push_decimal(&mut name, index);
    name.append(":latest");
    name
}

/// A parsed reference, as the registry client holds it. Its contents are
/// carried through untouched.
#[verifier::external_type_specification]
#[verifier::external_body]
pub struct ExReference(oci_distribution::Reference);

/// The registry client's reason for refusing a reference text. Its contents
/// are carried through untouched.
#[verifier::external_type_specification]
#[verifier::external_body]
pub struct ExParseError(oci_distribution::ParseError);

/// Whether the registry client accepts `text` as a reference. The grammar
/// is the client's own; nothing is said of it here.
pub uninterp spec fn reference_parses(text: Seq<char>) -> bool;

/// Calls `oci_distribution::Reference::try_from` on `text`. Whether the
/// client accepts a text depends on the text alone, and that is all that is
/// claimed: the reference and the reason for a refusal stay opaque.
#[verifier::external_body]
fn parse_reference(text: &str) -> (parsed: Result<
    oci_distribution::Reference,
    oci_distribution::ParseError,
>)
    ensures
        parsed.is_ok() == reference_parses(text@),
{
    oci_distribution::Reference::try_from(text)
}

/// A reference text that the registry client refused.
pub struct InvalidReference {
    /// The text that was refused.
    pub text: String,
    /// The registry client's reason.
    pub cause: oci_distribution::ParseError,
}

/// What `reference_from_parse` makes of a text and of what the registry
/// client said to it.
pub open spec fn reference_outcome(
    text: String,
    parsed: Result<oci_distribution::Reference, oci_distribution::ParseError>,
) -> Result<oci_distribution::Reference, InvalidReference> {
    match parsed {
        Ok(reference) => Ok(reference),
        Err(cause) => Err(InvalidReference { text, cause }),
    }
}

/// Keeps an accepted reference as it is, and puts the refused text beside
/// the reason for a refusal.
pub fn reference_from_parse(
    text: String,
    parsed: Result<oci_distribution::Reference, oci_distribution::ParseError>,
) -> (outcome: Result<oci_distribution::Reference, InvalidReference>)
    ensures
        outcome == reference_outcome(text, parsed),
{
    match parsed {
        Ok(reference) => Ok(reference),
        Err(cause) => Err(InvalidReference { text, cause }),
    }
}

/// Derives the reference of task `index` on `host` and has the registry
/// client parse it. A host that makes the text unacceptable to the client
/// is reported with the text; nothing is skipped in silence.
pub fn task_reference(host: &str, index: usize) -> (outcome: Result<
    oci_distribution::Reference,
    InvalidReference,
>)
    ensures
        outcome is Ok == reference_parses(reference_text(host@, index as nat)),
        outcome matches Err(refused) ==> refused.text@ == reference_text(host@, index as nat),
{
    let text = reference_name(host, index);
    let parsed = parse_reference(text.as_str());
    reference_from_parse(text, parsed)
}

} // verus!
