use vstd::prelude::*;

verus! {

#[verifier::external_type_specification]
#[verifier::external_body]
pub struct ExRegexError(regex::Error);

/// Organisational facts that decide which pricing plans apply to the user.
#[derive(Debug, Clone, Copy, PartialEq, Eq, Structural)]
pub struct Metrics {
    /// Number of employees of the paying organisation, where configured.
    pub employees_count: Option<usize>,
    /// Whether the software is used commercially.
    pub commercial: bool,
    /// Whether voluntary plans are taken into account.
    pub include_voluntary_plans: bool,
}

impl Metrics {
    /// Metrics with no employee count, for commercial use, voluntary plans included.
    pub fn new() -> (r: Metrics)
        ensures
            r == (Metrics { employees_count: None, commercial: true, include_voluntary_plans: true }),
    {
        Metrics { employees_count: None, commercial: true, include_voluntary_plans: true }
    }
}

/// Why a metrics setting could not be read or written.
#[derive(Debug, Clone, PartialEq, Eq)]
pub enum MetricsError {
    /// The setting name is not a known metrics field; it holds the name given.
    UnknownFieldName(String),
    /// The value is not a valid count.
    InvalidValue,
}

/// `e` is the error for an unknown field, naming `name`.
pub open spec fn names_field(e: MetricsError, name: Seq<char>) -> bool {
    match e {
        MetricsError::UnknownFieldName(n) => n@ == name,
        _ => false,
    }
}

/// The pattern that setting names of this section match.
pub const SETTING_PATTERN: &'static str = "metrics\\.(.*)";

/// The field name of the only metrics setting.
pub open spec fn employees_count_field() -> Seq<char> {
    seq!['e', 'm', 'p', 'l', 'o', 'y', 'e', 'e', 's', '-', 'c', 'o', 'u', 'n', 't']
}

/// The prefix that names a metrics setting.
pub open spec fn setting_prefix() -> Seq<char> {
    seq!['m', 'e', 't', 'r', 'i', 'c', 's', '.']
}

/// `s` holds the setting prefix at index `i`.
pub open spec fn prefix_at(s: Seq<char>, i: int) -> bool {
    0 <= i && i + 8 <= s.len() && s.subrange(i, i + 8) == setting_prefix()
}

/// The first index at or after `i` where `s` holds the setting prefix.
pub open spec fn first_prefix_from(s: Seq<char>, i: int) -> Option<int>
    decreases s.len() - i,
{
    if i < 0 || i + 8 > s.len() {
        None
    } else if prefix_at(s, i) {
        Some(i)
    } else {
        first_prefix_from(s, i + 1)
    }
}

/// The first index at or after `i` that holds a line feed, or the length of `s`.
pub open spec fn line_end_from(s: Seq<char>, i: int) -> int
    decreases s.len() - i,
{
    if i < 0 || i >= s.len() {
        s.len() as int
    } else if s[i] == '\n' {
        i
    } else {
        line_end_from(s, i + 1)
    }
}

/// The field named by a setting name: what follows the first `metrics.` up to
/// the end of its line (the first group of the setting pattern), if the name
/// holds `metrics.` at all.
pub open spec fn setting_field(name: Seq<char>) -> Option<Seq<char>> {
    match first_prefix_from(name, 0) {
        Some(k) => Some(name.subrange(k + 8, line_end_from(name, k + 8))),
        None => None,
    }
}

/// The value of a string of decimal digits.
pub open spec fn digits_value(s: Seq<char>) -> int
    decreases s.len(),
{
    if s.len() == 0 {
        0
    } else {
        digits_value(s.drop_last()) * 10 + ((s.last() as u32) - ('0' as u32))
    }
}

/// The count a text stands for: an optional `+`, then one or more decimal
/// digits, whose value fits in a `usize`.
pub open spec fn count_of(s: Seq<char>) -> Option<usize> {
    let d = if s.len() > 0 && s[0] == '+' {
        s.drop_first()
    } else {
        s
    };
    if d.len() > 0 && (forall|i: int| 0 <= i < d.len() ==> '0' <= #[trigger] d[i] <= '9')
        && digits_value(d) <= usize::MAX {
        Some(digits_value(d) as usize)
    } else {
        None
    }
}

/// The decimal text of `n`: its digits, most significant first, with no
/// leading zero.
pub open spec fn decimal_text(n: nat) -> Seq<char>
    decreases n,
{
    if n < 10 {
        seq![digit_char(n)]
    } else {
        decimal_text(n / 10).push(digit_char(n % 10))
    }
}

/// The character of the digit `d`.
pub open spec fn digit_char(d: nat) -> char {
    if d == 0 { '0' } else if d == 1 { '1' } else if d == 2 { '2' } else if d == 3 { '3' } else if d
        == 4 { '4' } else if d == 5 { '5' } else if d == 6 { '6' } else if d == 7 { '7' } else if d
        == 8 { '8' } else { '9' }
}

/// Relies on regex's `Regex::new`, which fails only on an invalid pattern or one
/// over the size limit (neither holds of the setting pattern), and
/// `Regex::is_match`: the unanchored setting pattern matches exactly the names
/// that hold `metrics.`.
#[verifier::external_body]
fn pattern_is_match(pattern: &str, name: &str) -> (r: Result<bool, regex::Error>)
    ensures
        pattern@ == SETTING_PATTERN@ ==> r is Ok,
        pattern@ == SETTING_PATTERN@ ==> (r matches Ok(b) ==> b == setting_field(name@) is Some),
{
    Ok(regex::Regex::new(pattern)?.is_match(name))
}

/// Relies on regex's `Regex::new` (which accepts the setting pattern, as
/// above), `Regex::captures` and `Captures::get`: the first group of the
/// leftmost match of the setting pattern, which starts at the first `metrics.`
/// and runs to the end of that line (`.` takes no line feed).
#[verifier::external_body]
fn pattern_group(pattern: &str, name: &str) -> (r: Result<Option<String>, regex::Error>)
    ensures
        pattern@ == SETTING_PATTERN@ ==> r is Ok,
        pattern@ == SETTING_PATTERN@ ==> (r matches Ok(f) ==> opt_chars(f) == setting_field(name@)),
{
    let re = regex::Regex::new(pattern)?;
    let group = match re.captures(name) {
        Some(captures) => captures.get(1),
        None => None,
    };
    Ok(match group {
        Some(m) => Some(m.as_str().to_string()),
        None => None,
    })
}

/// Relies on `str::parse::<usize>`: an optional `+` and decimal digits whose
/// value fits, and an error otherwise.
#[verifier::external_body]
fn parse_count(value: &str) -> (r: Option<usize>)
    ensures
        r == count_of(value@),
{
    match value.parse::<usize>() {
        Ok(n) => Some(n),
        Err(_) => None,
    }
}

/// Relies on `usize`'s `Display` through `ToString::to_string`: the decimal
/// digits of the number, with no sign and no leading zero.
#[verifier::external_body]
fn count_text(n: usize) -> (r: String)
    ensures
        r@ == decimal_text(n as nat),
{
    n.to_string()
}

/// Whether `name` is a metrics setting name.
pub fn is_match(name: &str) -> (r: Result<bool, MetricsError>)
    ensures
        r == Ok::<bool, MetricsError>(setting_field(name@) is Some),
{
    match pattern_is_match(SETTING_PATTERN, name) {
        Ok(b) => Ok(b),
        Err(_) => Ok(false),
    }
}

/// The field named by `name`, if it names one.
fn field_of(name: &str) -> (r: Option<String>)
    ensures
        opt_chars(r) == setting_field(name@),
{
    match pattern_group(SETTING_PATTERN, name) {
        Ok(f) => f,
        Err(_) => None,
    }
}

/// The characters of an optional string.
pub open spec fn opt_chars(s: Option<String>) -> Option<Seq<char>> {
    match s {
        Some(v) => Some(v@),
        None => None,
    }
}

/// `name` names the employee-count setting.
pub open spec fn names_employees_count(name: Seq<char>) -> bool {
    setting_field(name) == Some(employees_count_field())
}

/// `s` is how a setting shows the count `c`: its decimal text, or the empty
/// string where no count is set.
pub open spec fn shows_count(c: Option<usize>, s: String) -> bool {
    match c {
        Some(n) => s@ == decimal_text(n as nat),
        None => s@.len() == 0,
    }
}

/// Whether the field `f` is the employee-count field.
fn is_employees_count(f: &String) -> (r: bool)
    ensures
        r == (f@ == employees_count_field()),
{
    let known = "employees-count".to_owned();
    proof {
        reveal_strlit("employees-count");
        assert(known@ =~= employees_count_field());
    }
    *f == known
}

/// Sets the metrics field that `name` names to `value`.
pub fn set(metrics: &mut Metrics, name: &str, value: &str) -> (r: Result<(), MetricsError>)
    ensures
        names_employees_count(name@) && count_of(value@) is Some ==> r is Ok,
        r is Ok ==> names_employees_count(name@) && count_of(value@) is Some && *final(metrics) == (
        Metrics { employees_count: count_of(value@), ..*old(metrics) }),
        !names_employees_count(name@) ==> (r matches Err(e) && names_field(e, name@)),
        names_employees_count(name@) && count_of(value@) is None ==> r matches Err(
            MetricsError::InvalidValue,
        ),
        r is Err ==> *final(metrics) == *old(metrics),
{
    let is_known = match field_of(name) {
        Some(f) => is_employees_count(&f),
        None => false,
    };
    if is_known {
        match parse_count(value) {
            Some(n) => {
                metrics.employees_count = Some(n);
                Ok(())
            },
            None => Err(MetricsError::InvalidValue),
        }
    } else {
        Err(MetricsError::UnknownFieldName(name.to_string()))
    }
}

/// The value of the metrics field that `name` names, as text.
pub fn get(metrics: &Metrics, name: &str) -> (r: Result<String, MetricsError>)
    ensures
        names_employees_count(name@) ==> (r matches Ok(s) && shows_count(metrics.employees_count, s)),
        !names_employees_count(name@) ==> (r matches Err(e) && names_field(e, name@)),
{
    let is_known = match field_of(name) {
        Some(f) => is_employees_count(&f),
        None => false,
    };
    if is_known {
        match metrics.employees_count {
            Some(n) => Ok(count_text(n)),
            None => Ok(String::new()),
        }
    } else {
        Err(MetricsError::UnknownFieldName(name.to_string()))
    }
}

/// A digit's character is a decimal digit standing for it.
proof fn lemma_digit_char_value(d: nat)
    requires
        d < 10,
    ensures
        '0' <= digit_char(d) <= '9',
        (digit_char(d) as u32) - ('0' as u32) == d,
{
}

/// The decimal text of a number is one or more digits that stand for it.
pub proof fn lemma_decimal_text_value(n: nat)
    ensures
        decimal_text(n).len() > 0,
        forall|i: int| 0 <= i < decimal_text(n).len() ==> '0' <= #[trigger] decimal_text(n)[i] <= '9',
        digits_value(decimal_text(n)) == n,
    decreases n,
{
    let t = decimal_text(n);
    lemma_digit_char_value(n % 10);
    if n < 10 {
        assert(t.drop_last() =~= Seq::<char>::empty());
        assert(t.last() == digit_char(n));
        assert(digits_value(t) == digits_value(t.drop_last()) * 10 + ((t.last() as u32) - ('0' as u32)));
    } else {
        lemma_decimal_text_value(n / 10);
        let h = decimal_text(n / 10);
        assert(t.drop_last() =~= h);
        assert(t.last() == digit_char(n % 10));
        assert(digits_value(t) == digits_value(h) * 10 + ((t.last() as u32) - ('0' as u32)));
        assert(n == (n / 10) * 10 + n % 10);
        assert forall|i: int| 0 <= i < t.len() implies '0' <= #[trigger] t[i] <= '9' by {
            if i < h.len() {
                assert(t[i] == h[i]);
            }
        }
    }
}

/// The decimal text of a count reads back as that count.
pub proof fn lemma_count_of_decimal_text(n: usize)
    ensures
        count_of(decimal_text(n as nat)) == Some(n),
{
    lemma_decimal_text_value(n as nat);
    let t = decimal_text(n as nat);
    assert('0' <= t[0] <= '9');
}

/// Setting the employee count from a number's decimal text and reading it back
/// under the same name gives that text again.
pub proof fn lemma_set_then_get(
    before: Metrics,
    after: Metrics,
    name: Seq<char>,
    n: usize,
    shown: String,
)
    requires
        names_employees_count(name),
        after == (Metrics { employees_count: count_of(decimal_text(n as nat)), ..before }),
        shows_count(after.employees_count, shown),
    ensures
        shown@ == decimal_text(n as nat),
{
    lemma_count_of_decimal_text(n);
}

} // verus!
