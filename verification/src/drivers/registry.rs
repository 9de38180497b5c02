use vstd::prelude::*;

use super::endpoints::DriverKind;
use super::{strs_view, DriverDescriptionLegacy, EndpointSpec, EndpointSpecView, Type};
use crate::endpoint_url::{opt_view, parse_url, spec_url_parse, UrlView};
use crate::text::{concat_str, find_char, lemma_next_char_index, next_char_index, push_char, str_eq};

verus! {

/// An endpoint kind that the command line accepts, with the driver type it creates.
#[derive(Clone, Copy, Debug)]
pub struct ExtInfo {
    pub driver_ext: DriverKind,
    pub typ: Type,
}

/// The endpoint kinds that the command line accepts, in the order in which they are tried.
pub open spec fn spec_endpoints() -> Seq<ExtInfo> {
    seq![
        ExtInfo { driver_ext: DriverKind::TlogWriter, typ: Type::TlogWriter },
        ExtInfo { driver_ext: DriverKind::TlogReader, typ: Type::TlogReader },
        ExtInfo { driver_ext: DriverKind::Serial, typ: Type::Serial },
        ExtInfo { driver_ext: DriverKind::TcpClient, typ: Type::TcpClient },
        ExtInfo { driver_ext: DriverKind::TcpServer, typ: Type::TcpServer },
        ExtInfo { driver_ext: DriverKind::UdpClient, typ: Type::UdpClient },
        ExtInfo { driver_ext: DriverKind::UdpServer, typ: Type::UdpServer },
        ExtInfo { driver_ext: DriverKind::FakeSink, typ: Type::FakeSink },
        ExtInfo { driver_ext: DriverKind::FakeSource, typ: Type::FakeSource },
        ExtInfo { driver_ext: DriverKind::Zenoh, typ: Type::Zenoh },
    ]
}

/// The endpoint kinds that the command line accepts.
pub fn endpoints() -> (r: Vec<ExtInfo>)
    ensures
        r@ == spec_endpoints(),
{
    let r = vec![
        ExtInfo { driver_ext: DriverKind::TlogWriter, typ: Type::TlogWriter },
        ExtInfo { driver_ext: DriverKind::TlogReader, typ: Type::TlogReader },
        ExtInfo { driver_ext: DriverKind::Serial, typ: Type::Serial },
        ExtInfo { driver_ext: DriverKind::TcpClient, typ: Type::TcpClient },
        ExtInfo { driver_ext: DriverKind::TcpServer, typ: Type::TcpServer },
        ExtInfo { driver_ext: DriverKind::UdpClient, typ: Type::UdpClient },
        ExtInfo { driver_ext: DriverKind::UdpServer, typ: Type::UdpServer },
        ExtInfo { driver_ext: DriverKind::FakeSink, typ: Type::FakeSink },
        ExtInfo { driver_ext: DriverKind::FakeSource, typ: Type::FakeSource },
        ExtInfo { driver_ext: DriverKind::Zenoh, typ: Type::Zenoh },
    ];
    assert(r@ =~= spec_endpoints());
    r
}

/// No two accepted endpoint kinds create the same type of driver.
pub proof fn lemma_endpoint_types_unique()
    ensures
        forall|i: int, j: int|
            0 <= i < j < spec_endpoints().len() ==> spec_endpoints()[i].typ != spec_endpoints()[j].typ,
{
}

/// What `regex::Regex::new(pattern)` followed by `is_match(text)` answers: whether `text`
/// matches `pattern`, or `None` when the pattern does not compile.
pub uninterp spec fn spec_regex_is_match(pattern: Seq<char>, text: Seq<char>) -> Option<bool>;

/// Compiles `pattern` with `regex::Regex::new` and asks `Regex::is_match` whether `text`
/// matches it. The contract only names the answer: the character classes of the `regex`
/// crate follow Unicode tables that are not restated here.
#[verifier::external_body]
fn regex_is_match(pattern: &str, text: &str) -> (r: Option<bool>)
    ensures
        r == spec_regex_is_match(pattern@, text@),
{
    match regex::Regex::new(pattern) {
        Ok(re) => Some(re.is_match(text)),
        Err(_) => None,
    }
}

/// A character of the scheme of a legacy entry: one that the class `\w` of the `regex`
/// crate matches (a Unicode word character).
pub open spec fn is_word_char(c: char) -> bool {
    spec_regex_is_match("^\\w$"@, seq![c]) == Some(true)
}

/// A character of the second argument of a legacy entry: one that the class `\d` of the
/// `regex` crate matches (a Unicode decimal digit).
pub open spec fn is_decimal_digit(c: char) -> bool {
    spec_regex_is_match("^\\d$"@, seq![c]) == Some(true)
}

/// Whether `://` starts at `i`.
pub open spec fn separator_at(s: Seq<char>, i: int) -> bool {
    0 <= i && i + 3 <= s.len() && s[i] == ':' && s[i + 1] == '/' && s[i + 2] == '/'
}

/// Whether the text holds `://`, as a URL with an authority does.
pub open spec fn has_scheme_separator(s: Seq<char>) -> bool {
    exists|i: int| #[trigger] separator_at(s, i)
}

/// Scheme, first and optional second argument of a legacy entry `<scheme>:<arg1>[:<arg2>]`:
/// the scheme is one or more word characters, the first argument one or more characters other
/// than `:`, and the second argument one or more decimal digits.
pub open spec fn spec_legacy_parts(s: Seq<char>) -> Option<(Seq<char>, Seq<char>, Option<Seq<char>>)> {
    let i = next_char_index(s, ':', 0);
    let j = next_char_index(s, ':', i + 1);
    let scheme = s.subrange(0, i);
    let digits = s.subrange(j + 1, s.len() as int);
    if i == 0 || i >= s.len() || j == i + 1 || !(forall|k: int| 0 <= k < i ==> is_word_char(#[trigger] s[k])) {
        None
    } else if j >= s.len() {
        Some((scheme, s.subrange(i + 1, s.len() as int), None))
    } else if digits.len() > 0 && forall|k: int| 0 <= k < digits.len() ==> is_decimal_digit(#[trigger] digits[k]) {
        Some((scheme, s.subrange(i + 1, j), Some(digits)))
    } else {
        None
    }
}

/// The parts of a legacy entry put back together, with `:` between them, give the entry.
pub proof fn lemma_legacy_parts_reassemble(s: Seq<char>)
    requires
        spec_legacy_parts(s) is Some,
    ensures
        ({
            let (scheme, arg1, arg2) = spec_legacy_parts(s)->0;
            s == match arg2 {
                Some(d) => scheme + seq![':'] + arg1 + seq![':'] + d,
                None => scheme + seq![':'] + arg1,
            }
        }),
{
    let i = next_char_index(s, ':', 0);
    let j = next_char_index(s, ':', i + 1);
    lemma_next_char_index(s, ':', 0);
    lemma_next_char_index(s, ':', i + 1);
    let (scheme, arg1, arg2) = spec_legacy_parts(s)->0;
    match arg2 {
        Some(d) => {
            assert(s =~= scheme + seq![':'] + arg1 + seq![':'] + d);
        },
        None => {
            assert(s =~= scheme + seq![':'] + arg1);
        },
    }
}

/// The first kind at or after `k` whose schemes contain `scheme`.
pub open spec fn first_with_scheme(reg: Seq<ExtInfo>, scheme: Seq<char>, k: int) -> Option<int>
    decreases reg.len() - k,
{
    if k < 0 || k >= reg.len() {
        None
    } else if reg[k].driver_ext.spec_valid_schemes().contains(scheme) {
        Some(k)
    } else {
        first_with_scheme(reg, scheme, k + 1)
    }
}

/// A legacy entry with the index of the endpoint kind its scheme selects. An entry holding
/// `://` is a URL, never a legacy entry.
pub open spec fn spec_legacy_entry(entry: Seq<char>) -> Option<(int, Seq<char>, Option<Seq<char>>)> {
    if has_scheme_separator(entry) {
        None
    } else {
        match spec_legacy_parts(entry) {
            None => None,
            Some((scheme, arg1, arg2)) => match first_with_scheme(spec_endpoints(), scheme, 0) {
                None => None,
                Some(k) => Some((k, arg1, arg2)),
            },
        }
    }
}

/// The legacy description of an entry: the driver type and the arguments.
pub open spec fn spec_process_old_format(entry: Seq<char>) -> Option<(Type, Seq<char>, Option<Seq<char>>)> {
    match spec_legacy_entry(entry) {
        None => None,
        Some((k, arg1, arg2)) => Some((spec_endpoints()[k].typ, arg1, arg2)),
    }
}

/// Trying the kinds from `k` on with a URL: the first kind that accepts its scheme and builds
/// a driver gives it (`Some(Some(..))`), none gives `Some(None)`, and a kind that accepts the
/// scheme but lacks a part of the URL that it needs ends the search (`None`).
pub open spec fn url_outcome(reg: Seq<ExtInfo>, u: UrlView, k: int) -> Option<Option<EndpointSpecView>>
    decreases reg.len() - k,
{
    if k < 0 || k >= reg.len() {
        Some(None)
    } else if reg[k].driver_ext.spec_valid_schemes().contains(u.scheme) {
        if !reg[k].driver_ext.url_complete(u) {
            None
        } else {
            match reg[k].driver_ext.spec_create(u) {
                Some(s) => Some(Some(s)),
                None => url_outcome(reg, u, k + 1),
            }
        }
    } else {
        url_outcome(reg, u, k + 1)
    }
}

/// The error for an entry that no endpoint kind accepts.
pub open spec fn no_driver_message(entry: Seq<char>) -> Seq<char> {
    "Found no driver for entry: "@ + entry
}

/// What an entry of the command line gives: the driver, or an error message. `None` where a
/// legacy entry gives no URL, or where the selected kind lacks a part of the URL it needs.
pub open spec fn spec_entry_outcome(entry: Seq<char>) -> Option<Result<EndpointSpecView, Seq<char>>> {
    match spec_legacy_entry(entry) {
        Some((k, arg1, arg2)) => {
            let kind = spec_endpoints()[k].driver_ext;
            match kind.spec_url_from_legacy(arg1, arg2) {
                Err(_) => None,
                Ok(u) => if !kind.url_complete(u) {
                    None
                } else {
                    match kind.spec_create(u) {
                        Some(s) => Some(Ok(s)),
                        None => Some(Err(no_driver_message(entry))),
                    }
                },
            }
        },
        None => match spec_url_parse(entry) {
            None => Some(Err(no_driver_message(entry))),
            Some(u) => match url_outcome(spec_endpoints(), u, 0) {
                None => None,
                Some(Some(s)) => Some(Ok(s)),
                Some(None) => Some(Err(no_driver_message(entry))),
            },
        },
    }
}

/// Whether an entry gives a driver or an error message without failing.
pub open spec fn entry_accepted(entry: Seq<char>) -> bool {
    spec_entry_outcome(entry) is Some
}

/// Whether one character matches `pattern`.
fn char_matches(pattern: &str, c: char) -> (r: bool)
    ensures
        r == (spec_regex_is_match(pattern@, seq![c]) == Some(true)),
{
    let mut text = String::new();
    push_char(&mut text, c);
    assert(text@ =~= seq![c]);
    match regex_is_match(pattern, text.as_str()) {
        Some(m) => m,
        None => false,
    }
}

fn word_char(c: char) -> (r: bool)
    ensures
        r == is_word_char(c),
{
    char_matches("^\\w$", c)
}

fn decimal_digit(c: char) -> (r: bool)
    ensures
        r == is_decimal_digit(c),
{
    char_matches("^\\d$", c)
}

/// Checks whether the text holds `://`.
pub fn contains_scheme_separator(s: &str) -> (r: bool)
    ensures
        r == has_scheme_separator(s@),
{
    let n = s.unicode_len();
    if n < 3 {
        assert forall|i: int| !separator_at(s@, i) by {}
        return false;
    }
    let mut i: usize = 0;
    while i <= n - 3
        invariant
            n == s@.len(),
            n >= 3,
            i <= n - 2,
            forall|k: int| 0 <= k < i ==> !#[trigger] separator_at(s@, k),
        decreases n - i,
    {
        if s.get_char(i) == ':' && s.get_char(i + 1) == '/' && s.get_char(i + 2) == '/' {
            assert(separator_at(s@, i as int));
            return true;
        }
        i = i + 1;
    }
    assert forall|k: int| !#[trigger] separator_at(s@, k) by {
        if k >= i {
            assert(k + 3 > n);
        }
    }
    false
}

/// Checks that every character of `s` before `end` is a word character.
fn word_prefix(s: &str, end: usize) -> (r: bool)
    requires
        end <= s@.len(),
    ensures
        r == (forall|k: int| 0 <= k < end ==> is_word_char(#[trigger] s@[k])),
{
    let mut k: usize = 0;
    while k < end
        invariant
            end <= s@.len(),
            k <= end,
            forall|m: int| 0 <= m < k ==> is_word_char(#[trigger] s@[m]),
        decreases end - k,
    {
        if !word_char(s.get_char(k)) {
            return false;
        }
        k = k + 1;
    }
    true
}

/// Checks that `s` is one or more decimal digits.
fn all_decimal_digits(s: &str) -> (r: bool)
    ensures
        r == (s@.len() > 0 && forall|k: int| 0 <= k < s@.len() ==> is_decimal_digit(#[trigger] s@[k])),
{
    let n = s.unicode_len();
    if n == 0 {
        return false;
    }
    let mut k: usize = 0;
    while k < n
        invariant
            n == s@.len(),
            k <= n,
            forall|m: int| 0 <= m < k ==> is_decimal_digit(#[trigger] s@[m]),
        decreases n - k,
    {
        if !decimal_digit(s.get_char(k)) {
            return false;
        }
        k = k + 1;
    }
    true
}

/// Splits a legacy entry `<scheme>:<arg1>[:<arg2>]` into its parts.
pub fn legacy_parts(entry: &str) -> (r: Option<(String, String, Option<String>)>)
    ensures
        match r {
            Some((scheme, arg1, arg2)) => spec_legacy_parts(entry@) == Some((scheme@, arg1@, opt_view(arg2))),
            None => spec_legacy_parts(entry@) is None,
        },
{
    let n = entry.unicode_len();
    let i = find_char(entry, ':', 0);
    if i == 0 || i >= n {
        return None;
    }
    let j = find_char(entry, ':', i + 1);
    if j == i + 1 || !word_prefix(entry, i) {
        return None;
    }
    let scheme = entry.substring_char(0, i).to_string();
    if j >= n {
        let arg1 = entry.substring_char(i + 1, n).to_string();
        return Some((scheme, arg1, None));
    }
    let digits = entry.substring_char(j + 1, n);
    if !all_decimal_digits(digits) {
        return None;
    }
    let arg1 = entry.substring_char(i + 1, j).to_string();
    Some((scheme, arg1, Some(digits.to_string())))
}

/// Checks whether the schemes hold `scheme`.
fn schemes_contain(schemes: &Vec<&'static str>, scheme: &str) -> (r: bool)
    ensures
        r == strs_view(schemes@).contains(scheme@),
{
    let mut i: usize = 0;
    while i < schemes.len()
        invariant
            i <= schemes@.len(),
            forall|k: int| 0 <= k < i ==> strs_view(schemes@)[k] != scheme@,
        decreases schemes@.len() - i,
    {
        if str_eq(schemes[i], scheme) {
            assert(strs_view(schemes@)[i as int] == scheme@);
            return true;
        }
        i = i + 1;
    }
    false
}

/// The index of the first kind, from `k` on, whose schemes contain `scheme`.
fn find_kind(reg: &Vec<ExtInfo>, scheme: &str) -> (r: Option<usize>)
    ensures
        match r {
            Some(k) => first_with_scheme(reg@, scheme@, 0) == Some(k as int) && k < reg@.len(),
            None => first_with_scheme(reg@, scheme@, 0) is None,
        },
{
    let mut i: usize = 0;
    while i < reg.len()
        invariant
            i <= reg@.len(),
            first_with_scheme(reg@, scheme@, 0) == first_with_scheme(reg@, scheme@, i as int),
        decreases reg@.len() - i,
    {
        let schemes = reg[i].driver_ext.valid_schemes();
        if schemes_contain(&schemes, scheme) {
            return Some(i);
        }
        i = i + 1;
    }
    None
}

/// A legacy entry with the index of the endpoint kind its scheme selects.
fn legacy_entry(entry: &str, reg: &Vec<ExtInfo>) -> (r: Option<(usize, String, Option<String>)>)
    requires
        reg@ == spec_endpoints(),
    ensures
        match r {
            Some((k, arg1, arg2)) => spec_legacy_entry(entry@) == Some((k as int, arg1@, opt_view(arg2)))
                && k < reg@.len(),
            None => spec_legacy_entry(entry@) is None,
        },
{
    if contains_scheme_separator(entry) {
        return None;
    }
    match legacy_parts(entry) {
        None => None,
        Some((scheme, arg1, arg2)) => match find_kind(reg, scheme.as_str()) {
            None => None,
            Some(k) => Some((k, arg1, arg2)),
        },
    }
}

/// The legacy description of an entry, where it is one: `<scheme>:<arg1>[:<arg2>]` with a
/// scheme of an accepted endpoint kind.
pub fn process_old_format(entry: &str) -> (r: Option<DriverDescriptionLegacy>)
    ensures
        match r {
            Some(d) => spec_process_old_format(entry@) == Some((d.typ, d.arg1@, opt_view(d.arg2))),
            None => spec_process_old_format(entry@) is None,
        },
{
    let reg = endpoints();
    match legacy_entry(entry, &reg) {
        None => None,
        Some((k, arg1, arg2)) => Some(DriverDescriptionLegacy { typ: reg[k].typ, arg1, arg2 }),
    }
}

/// The error for an entry that no endpoint kind accepts.
fn no_driver(entry: &str) -> (r: String)
    ensures
        r@ == no_driver_message(entry@),
{
    proof {
        reveal_strlit("Found no driver for entry: ");
    }
    concat_str("Found no driver for entry: ", entry)
}

/// What an entry gives, `None` where the search for its driver cannot go on.
fn entry_outcome(entry: &str) -> (r: Option<Result<EndpointSpec, String>>)
    ensures
        match (r, spec_entry_outcome(entry@)) {
            (None, None) => true,
            (Some(Ok(s)), Some(Ok(v))) => s@ == v,
            (Some(Err(m)), Some(Err(w))) => m@ == w,
            _ => false,
        },
{
    let reg = endpoints();
    match legacy_entry(entry, &reg) {
        Some((k, arg1, arg2)) => {
            let kind = reg[k].driver_ext;
            let legacy = DriverDescriptionLegacy { typ: reg[k].typ, arg1, arg2 };
            match kind.url_from_legacy(&legacy) {
                Err(_) => None,
                Ok(url) => {
                    if !kind.is_url_complete(&url) {
                        return None;
                    }
                    match kind.create_endpoint_from_url(&url) {
                        Some(s) => Some(Ok(s)),
                        None => Some(Err(no_driver(entry))),
                    }
                },
            }
        },
        None => match parse_url(entry) {
            None => Some(Err(no_driver(entry))),
            Some(url) => {
                let mut i: usize = 0;
                while i < reg.len()
                    invariant
                        reg@ == spec_endpoints(),
                        i <= reg@.len(),
                        spec_url_parse(entry@) == Some(url@),
                        spec_legacy_entry(entry@) is None,
                        url_outcome(reg@, url@, 0) == url_outcome(reg@, url@, i as int),
                    decreases reg@.len() - i,
                {
                    let kind = reg[i].driver_ext;
                    let schemes = kind.valid_schemes();
                    if schemes_contain(&schemes, url.scheme().as_str()) {
                        if !kind.is_url_complete(&url) {
                            return None;
                        }
                        match kind.create_endpoint_from_url(&url) {
                            Some(s) => {
                                return Some(Ok(s));
                            },
                            None => {},
                        }
                    }
                    i = i + 1;
                }
                Some(Err(no_driver(entry)))
            },
        },
    }
}

/// Creates the driver that an entry of the command line describes: a legacy entry
/// `<scheme>:<arg1>[:<arg2>]`, or a URL whose scheme selects the first kind that builds a
/// driver from it; an error naming the entry where no kind does.
pub fn create_driver_from_entry(entry: &str) -> (r: Result<EndpointSpec, String>)
    requires
        entry_accepted(entry@),
    ensures
        match (r, spec_entry_outcome(entry@)) {
            (Ok(s), Some(Ok(v))) => s@ == v,
            (Err(m), Some(Err(w))) => m@ == w,
            _ => false,
        },
{
    match entry_outcome(entry) {
        Some(r) => r,
        None => {
            proof {
                assert(false);
            }
            Err(no_driver(entry))
        },
    }
}

/// Creates the driver of an entry where that succeeds or ends in an error message; `None`
/// where the entry selects a kind of endpoint that lacks a part of its URL it needs.
pub fn checked_create_driver_from_entry(entry: &str) -> (r: Option<Result<EndpointSpec, String>>)
    ensures
        r is None <==> !entry_accepted(entry@),
        match (r, spec_entry_outcome(entry@)) {
            (None, None) => true,
            (Some(Ok(s)), Some(Ok(v))) => s@ == v,
            (Some(Err(m)), Some(Err(w))) => m@ == w,
            _ => false,
        },
{
    match entry_outcome(entry) {
        None => None,
        Some(_) => Some(create_driver_from_entry(entry)),
    }
}


/// The first kind whose schemes hold `scheme` is kind `k` when `k` holds it and no kind before
/// it does.
proof fn lemma_first_with_scheme(reg: Seq<ExtInfo>, scheme: Seq<char>, from: int, k: int)
    requires
        0 <= from <= k < reg.len(),
        reg[k].driver_ext.spec_valid_schemes().contains(scheme),
        forall|i: int| from <= i < k ==> !(#[trigger] reg[i]).driver_ext.spec_valid_schemes().contains(scheme),
    ensures
        first_with_scheme(reg, scheme, from) == Some(k),
    decreases k - from,
{
    if from < k {
        lemma_first_with_scheme(reg, scheme, from + 1, k);
    }
}

/// The scheme of a legacy entry: what comes before its first `:`.
pub open spec fn legacy_scheme(entry: Seq<char>) -> Seq<char> {
    entry.take(next_char_index(entry, ':', 0))
}

/// The scheme `tlogwriter` selects endpoint kind 0 of the accepted kinds.
proof fn lemma_scheme_selects_tlogwriter()
    ensures
        first_with_scheme(spec_endpoints(), "tlogwriter"@, 0) == Some(0int),
{
    reveal_strlit("tlogw");
    reveal_strlit("tlogwriter");
    let e = spec_endpoints();
    assert(e[0].driver_ext.spec_valid_schemes() =~= seq!["tlogwriter"@, "tlogw"@]);
    assert(e[0].driver_ext.spec_valid_schemes()[0] == "tlogwriter"@);
    assert forall|i: int| 0 <= i < 0 implies !(#[trigger] e[i]).driver_ext.spec_valid_schemes().contains("tlogwriter"@) by {
    }
    lemma_first_with_scheme(e, "tlogwriter"@, 0, 0);
}

/// The scheme `tlogreader` selects endpoint kind 1 of the accepted kinds.
proof fn lemma_scheme_selects_tlogreader()
    ensures
        first_with_scheme(spec_endpoints(), "tlogreader"@, 0) == Some(1int),
{
    reveal_strlit("tlogr");
    reveal_strlit("tlogreader");
    reveal_strlit("tlogw");
    reveal_strlit("tlogwriter");
    let e = spec_endpoints();
    assert(e[0].driver_ext.spec_valid_schemes() =~= seq!["tlogwriter"@, "tlogw"@]);
    assert(e[1].driver_ext.spec_valid_schemes() =~= seq!["tlogreader"@, "tlogr"@]);
    assert(e[1].driver_ext.spec_valid_schemes()[0] == "tlogreader"@);
    assert forall|i: int| 0 <= i < 1 implies !(#[trigger] e[i]).driver_ext.spec_valid_schemes().contains("tlogreader"@) by {
        if i == 0 { assert("tlogwriter"@[4] != "tlogreader"@[4]); assert("tlogw"@.len() != "tlogreader"@.len()); }
    }
    lemma_first_with_scheme(e, "tlogreader"@, 0, 1);
}

/// The scheme `tcpc` selects endpoint kind 3 of the accepted kinds.
proof fn lemma_scheme_selects_tcpc()
    ensures
        first_with_scheme(spec_endpoints(), "tcpc"@, 0) == Some(3int),
{
    reveal_strlit("serial");
    reveal_strlit("tcpc");
    reveal_strlit("tcpclient");
    reveal_strlit("tlogr");
    reveal_strlit("tlogreader");
    reveal_strlit("tlogw");
    reveal_strlit("tlogwriter");
    let e = spec_endpoints();
    assert(e[0].driver_ext.spec_valid_schemes() =~= seq!["tlogwriter"@, "tlogw"@]);
    assert(e[1].driver_ext.spec_valid_schemes() =~= seq!["tlogreader"@, "tlogr"@]);
    assert(e[2].driver_ext.spec_valid_schemes() =~= seq!["serial"@]);
    assert(e[3].driver_ext.spec_valid_schemes() =~= seq!["tcpc"@, "tcpclient"@]);
    assert(e[3].driver_ext.spec_valid_schemes()[0] == "tcpc"@);
    assert forall|i: int| 0 <= i < 3 implies !(#[trigger] e[i]).driver_ext.spec_valid_schemes().contains("tcpc"@) by {
        if i == 0 { assert("tlogwriter"@.len() != "tcpc"@.len()); assert("tlogw"@.len() != "tcpc"@.len()); }
        if i == 1 { assert("tlogreader"@.len() != "tcpc"@.len()); assert("tlogr"@.len() != "tcpc"@.len()); }
        if i == 2 { assert("serial"@.len() != "tcpc"@.len()); }
    }
    lemma_first_with_scheme(e, "tcpc"@, 0, 3);
}

/// The scheme `tcpclient` selects endpoint kind 3 of the accepted kinds.
proof fn lemma_scheme_selects_tcpclient()
    ensures
        first_with_scheme(spec_endpoints(), "tcpclient"@, 0) == Some(3int),
{
    reveal_strlit("serial");
    reveal_strlit("tcpc");
    reveal_strlit("tcpclient");
    reveal_strlit("tlogr");
    reveal_strlit("tlogreader");
    reveal_strlit("tlogw");
    reveal_strlit("tlogwriter");
    let e = spec_endpoints();
    assert(e[0].driver_ext.spec_valid_schemes() =~= seq!["tlogwriter"@, "tlogw"@]);
    assert(e[1].driver_ext.spec_valid_schemes() =~= seq!["tlogreader"@, "tlogr"@]);
    assert(e[2].driver_ext.spec_valid_schemes() =~= seq!["serial"@]);
    assert(e[3].driver_ext.spec_valid_schemes() =~= seq!["tcpc"@, "tcpclient"@]);
    assert(e[3].driver_ext.spec_valid_schemes()[1] == "tcpclient"@);
    assert forall|i: int| 0 <= i < 3 implies !(#[trigger] e[i]).driver_ext.spec_valid_schemes().contains("tcpclient"@) by {
        if i == 0 { assert("tlogwriter"@.len() != "tcpclient"@.len()); assert("tlogw"@.len() != "tcpclient"@.len()); }
        if i == 1 { assert("tlogreader"@.len() != "tcpclient"@.len()); assert("tlogr"@.len() != "tcpclient"@.len()); }
        if i == 2 { assert("serial"@.len() != "tcpclient"@.len()); }
    }
    lemma_first_with_scheme(e, "tcpclient"@, 0, 3);
}

/// The scheme `tcps` selects endpoint kind 4 of the accepted kinds.
proof fn lemma_scheme_selects_tcps()
    ensures
        first_with_scheme(spec_endpoints(), "tcps"@, 0) == Some(4int),
{
    reveal_strlit("serial");
    reveal_strlit("tcpc");
    reveal_strlit("tcpclient");
    reveal_strlit("tcps");
    reveal_strlit("tcpserver");
    reveal_strlit("tlogr");
    reveal_strlit("tlogreader");
    reveal_strlit("tlogw");
    reveal_strlit("tlogwriter");
    let e = spec_endpoints();
    assert(e[0].driver_ext.spec_valid_schemes() =~= seq!["tlogwriter"@, "tlogw"@]);
    assert(e[1].driver_ext.spec_valid_schemes() =~= seq!["tlogreader"@, "tlogr"@]);
    assert(e[2].driver_ext.spec_valid_schemes() =~= seq!["serial"@]);
    assert(e[3].driver_ext.spec_valid_schemes() =~= seq!["tcpc"@, "tcpclient"@]);
    assert(e[4].driver_ext.spec_valid_schemes() =~= seq!["tcps"@, "tcpserver"@]);
    assert(e[4].driver_ext.spec_valid_schemes()[0] == "tcps"@);
    assert forall|i: int| 0 <= i < 4 implies !(#[trigger] e[i]).driver_ext.spec_valid_schemes().contains("tcps"@) by {
        if i == 0 { assert("tlogwriter"@.len() != "tcps"@.len()); assert("tlogw"@.len() != "tcps"@.len()); }
        if i == 1 { assert("tlogreader"@.len() != "tcps"@.len()); assert("tlogr"@.len() != "tcps"@.len()); }
        if i == 2 { assert("serial"@.len() != "tcps"@.len()); }
        if i == 3 { assert("tcpc"@[3] != "tcps"@[3]); assert("tcpclient"@.len() != "tcps"@.len()); }
    }
    lemma_first_with_scheme(e, "tcps"@, 0, 4);
}

/// The scheme `tcpserver` selects endpoint kind 4 of the accepted kinds.
proof fn lemma_scheme_selects_tcpserver()
    ensures
        first_with_scheme(spec_endpoints(), "tcpserver"@, 0) == Some(4int),
{
    reveal_strlit("serial");
    reveal_strlit("tcpc");
    reveal_strlit("tcpclient");
    reveal_strlit("tcps");
    reveal_strlit("tcpserver");
    reveal_strlit("tlogr");
    reveal_strlit("tlogreader");
    reveal_strlit("tlogw");
    reveal_strlit("tlogwriter");
    let e = spec_endpoints();
    assert(e[0].driver_ext.spec_valid_schemes() =~= seq!["tlogwriter"@, "tlogw"@]);
    assert(e[1].driver_ext.spec_valid_schemes() =~= seq!["tlogreader"@, "tlogr"@]);
    assert(e[2].driver_ext.spec_valid_schemes() =~= seq!["serial"@]);
    assert(e[3].driver_ext.spec_valid_schemes() =~= seq!["tcpc"@, "tcpclient"@]);
    assert(e[4].driver_ext.spec_valid_schemes() =~= seq!["tcps"@, "tcpserver"@]);
    assert(e[4].driver_ext.spec_valid_schemes()[1] == "tcpserver"@);
    assert forall|i: int| 0 <= i < 4 implies !(#[trigger] e[i]).driver_ext.spec_valid_schemes().contains("tcpserver"@) by {
        if i == 0 { assert("tlogwriter"@.len() != "tcpserver"@.len()); assert("tlogw"@.len() != "tcpserver"@.len()); }
        if i == 1 { assert("tlogreader"@.len() != "tcpserver"@.len()); assert("tlogr"@.len() != "tcpserver"@.len()); }
        if i == 2 { assert("serial"@.len() != "tcpserver"@.len()); }
        if i == 3 { assert("tcpc"@.len() != "tcpserver"@.len()); assert("tcpclient"@[3] != "tcpserver"@[3]); }
    }
    lemma_first_with_scheme(e, "tcpserver"@, 0, 4);
}

/// The scheme `udpclient` selects endpoint kind 5 of the accepted kinds.
proof fn lemma_scheme_selects_udpclient()
    ensures
        first_with_scheme(spec_endpoints(), "udpclient"@, 0) == Some(5int),
{
    reveal_strlit("serial");
    reveal_strlit("tcpc");
    reveal_strlit("tcpclient");
    reveal_strlit("tcps");
    reveal_strlit("tcpserver");
    reveal_strlit("tlogr");
    reveal_strlit("tlogreader");
    reveal_strlit("tlogw");
    reveal_strlit("tlogwriter");
    reveal_strlit("udpc");
    reveal_strlit("udpclient");
    reveal_strlit("udpout");
    let e = spec_endpoints();
    assert(e[0].driver_ext.spec_valid_schemes() =~= seq!["tlogwriter"@, "tlogw"@]);
    assert(e[1].driver_ext.spec_valid_schemes() =~= seq!["tlogreader"@, "tlogr"@]);
    assert(e[2].driver_ext.spec_valid_schemes() =~= seq!["serial"@]);
    assert(e[3].driver_ext.spec_valid_schemes() =~= seq!["tcpc"@, "tcpclient"@]);
    assert(e[4].driver_ext.spec_valid_schemes() =~= seq!["tcps"@, "tcpserver"@]);
    assert(e[5].driver_ext.spec_valid_schemes() =~= seq!["udpclient"@, "udpout"@, "udpc"@]);
    assert(e[5].driver_ext.spec_valid_schemes()[0] == "udpclient"@);
    assert forall|i: int| 0 <= i < 5 implies !(#[trigger] e[i]).driver_ext.spec_valid_schemes().contains("udpclient"@) by {
        if i == 0 { assert("tlogwriter"@.len() != "udpclient"@.len()); assert("tlogw"@.len() != "udpclient"@.len()); }
        if i == 1 { assert("tlogreader"@.len() != "udpclient"@.len()); assert("tlogr"@.len() != "udpclient"@.len()); }
        if i == 2 { assert("serial"@.len() != "udpclient"@.len()); }
        if i == 3 { assert("tcpc"@.len() != "udpclient"@.len()); assert("tcpclient"@[0] != "udpclient"@[0]); }
        if i == 4 { assert("tcps"@.len() != "udpclient"@.len()); assert("tcpserver"@[0] != "udpclient"@[0]); }
    }
    lemma_first_with_scheme(e, "udpclient"@, 0, 5);
}

/// The scheme `udpout` selects endpoint kind 5 of the accepted kinds.
proof fn lemma_scheme_selects_udpout()
    ensures
        first_with_scheme(spec_endpoints(), "udpout"@, 0) == Some(5int),
{
    reveal_strlit("serial");
    reveal_strlit("tcpc");
    reveal_strlit("tcpclient");
    reveal_strlit("tcps");
    reveal_strlit("tcpserver");
    reveal_strlit("tlogr");
    reveal_strlit("tlogreader");
    reveal_strlit("tlogw");
    reveal_strlit("tlogwriter");
    reveal_strlit("udpc");
    reveal_strlit("udpclient");
    reveal_strlit("udpout");
    let e = spec_endpoints();
    assert(e[0].driver_ext.spec_valid_schemes() =~= seq!["tlogwriter"@, "tlogw"@]);
    assert(e[1].driver_ext.spec_valid_schemes() =~= seq!["tlogreader"@, "tlogr"@]);
    assert(e[2].driver_ext.spec_valid_schemes() =~= seq!["serial"@]);
    assert(e[3].driver_ext.spec_valid_schemes() =~= seq!["tcpc"@, "tcpclient"@]);
    assert(e[4].driver_ext.spec_valid_schemes() =~= seq!["tcps"@, "tcpserver"@]);
    assert(e[5].driver_ext.spec_valid_schemes() =~= seq!["udpclient"@, "udpout"@, "udpc"@]);
    assert(e[5].driver_ext.spec_valid_schemes()[1] == "udpout"@);
    assert forall|i: int| 0 <= i < 5 implies !(#[trigger] e[i]).driver_ext.spec_valid_schemes().contains("udpout"@) by {
        if i == 0 { assert("tlogwriter"@.len() != "udpout"@.len()); assert("tlogw"@.len() != "udpout"@.len()); }
        if i == 1 { assert("tlogreader"@.len() != "udpout"@.len()); assert("tlogr"@.len() != "udpout"@.len()); }
        if i == 2 { assert("serial"@[0] != "udpout"@[0]); }
        if i == 3 { assert("tcpc"@.len() != "udpout"@.len()); assert("tcpclient"@.len() != "udpout"@.len()); }
        if i == 4 { assert("tcps"@.len() != "udpout"@.len()); assert("tcpserver"@.len() != "udpout"@.len()); }
    }
    lemma_first_with_scheme(e, "udpout"@, 0, 5);
}

/// The scheme `udpserver` selects endpoint kind 6 of the accepted kinds.
proof fn lemma_scheme_selects_udpserver()
    ensures
        first_with_scheme(spec_endpoints(), "udpserver"@, 0) == Some(6int),
{
    reveal_strlit("serial");
    reveal_strlit("tcpc");
    reveal_strlit("tcpclient");
    reveal_strlit("tcps");
    reveal_strlit("tcpserver");
    reveal_strlit("tlogr");
    reveal_strlit("tlogreader");
    reveal_strlit("tlogw");
    reveal_strlit("tlogwriter");
    reveal_strlit("udpc");
    reveal_strlit("udpclient");
    reveal_strlit("udpin");
    reveal_strlit("udpout");
    reveal_strlit("udps");
    reveal_strlit("udpserver");
    let e = spec_endpoints();
    assert(e[0].driver_ext.spec_valid_schemes() =~= seq!["tlogwriter"@, "tlogw"@]);
    assert(e[1].driver_ext.spec_valid_schemes() =~= seq!["tlogreader"@, "tlogr"@]);
    assert(e[2].driver_ext.spec_valid_schemes() =~= seq!["serial"@]);
    assert(e[3].driver_ext.spec_valid_schemes() =~= seq!["tcpc"@, "tcpclient"@]);
    assert(e[4].driver_ext.spec_valid_schemes() =~= seq!["tcps"@, "tcpserver"@]);
    assert(e[5].driver_ext.spec_valid_schemes() =~= seq!["udpclient"@, "udpout"@, "udpc"@]);
    assert(e[6].driver_ext.spec_valid_schemes() =~= seq!["udpserver"@, "udpin"@, "udps"@]);
    assert(e[6].driver_ext.spec_valid_schemes()[0] == "udpserver"@);
    assert forall|i: int| 0 <= i < 6 implies !(#[trigger] e[i]).driver_ext.spec_valid_schemes().contains("udpserver"@) by {
        if i == 0 { assert("tlogwriter"@.len() != "udpserver"@.len()); assert("tlogw"@.len() != "udpserver"@.len()); }
        if i == 1 { assert("tlogreader"@.len() != "udpserver"@.len()); assert("tlogr"@.len() != "udpserver"@.len()); }
        if i == 2 { assert("serial"@.len() != "udpserver"@.len()); }
        if i == 3 { assert("tcpc"@.len() != "udpserver"@.len()); assert("tcpclient"@[0] != "udpserver"@[0]); }
        if i == 4 { assert("tcps"@.len() != "udpserver"@.len()); assert("tcpserver"@[0] != "udpserver"@[0]); }
        if i == 5 { assert("udpclient"@[3] != "udpserver"@[3]); assert("udpout"@.len() != "udpserver"@.len()); assert("udpc"@.len() != "udpserver"@.len()); }
    }
    lemma_first_with_scheme(e, "udpserver"@, 0, 6);
}

/// The scheme `udpin` selects endpoint kind 6 of the accepted kinds.
proof fn lemma_scheme_selects_udpin()
    ensures
        first_with_scheme(spec_endpoints(), "udpin"@, 0) == Some(6int),
{
    reveal_strlit("serial");
    reveal_strlit("tcpc");
    reveal_strlit("tcpclient");
    reveal_strlit("tcps");
    reveal_strlit("tcpserver");
    reveal_strlit("tlogr");
    reveal_strlit("tlogreader");
    reveal_strlit("tlogw");
    reveal_strlit("tlogwriter");
    reveal_strlit("udpc");
    reveal_strlit("udpclient");
    reveal_strlit("udpin");
    reveal_strlit("udpout");
    reveal_strlit("udps");
    reveal_strlit("udpserver");
    let e = spec_endpoints();
    assert(e[0].driver_ext.spec_valid_schemes() =~= seq!["tlogwriter"@, "tlogw"@]);
    assert(e[1].driver_ext.spec_valid_schemes() =~= seq!["tlogreader"@, "tlogr"@]);
    assert(e[2].driver_ext.spec_valid_schemes() =~= seq!["serial"@]);
    assert(e[3].driver_ext.spec_valid_schemes() =~= seq!["tcpc"@, "tcpclient"@]);
    assert(e[4].driver_ext.spec_valid_schemes() =~= seq!["tcps"@, "tcpserver"@]);
    assert(e[5].driver_ext.spec_valid_schemes() =~= seq!["udpclient"@, "udpout"@, "udpc"@]);
    assert(e[6].driver_ext.spec_valid_schemes() =~= seq!["udpserver"@, "udpin"@, "udps"@]);
    assert(e[6].driver_ext.spec_valid_schemes()[1] == "udpin"@);
    assert forall|i: int| 0 <= i < 6 implies !(#[trigger] e[i]).driver_ext.spec_valid_schemes().contains("udpin"@) by {
        if i == 0 { assert("tlogwriter"@.len() != "udpin"@.len()); assert("tlogw"@[0] != "udpin"@[0]); }
        if i == 1 { assert("tlogreader"@.len() != "udpin"@.len()); assert("tlogr"@[0] != "udpin"@[0]); }
        if i == 2 { assert("serial"@.len() != "udpin"@.len()); }
        if i == 3 { assert("tcpc"@.len() != "udpin"@.len()); assert("tcpclient"@.len() != "udpin"@.len()); }
        if i == 4 { assert("tcps"@.len() != "udpin"@.len()); assert("tcpserver"@.len() != "udpin"@.len()); }
        if i == 5 { assert("udpclient"@.len() != "udpin"@.len()); assert("udpout"@.len() != "udpin"@.len()); assert("udpc"@.len() != "udpin"@.len()); }
    }
    lemma_first_with_scheme(e, "udpin"@, 0, 6);
}

/// The scheme `fakesink` selects endpoint kind 7 of the accepted kinds.
proof fn lemma_scheme_selects_fakesink()
    ensures
        first_with_scheme(spec_endpoints(), "fakesink"@, 0) == Some(7int),
{
    reveal_strlit("fakec");
    reveal_strlit("fakeclient");
    reveal_strlit("fakesink");
    reveal_strlit("serial");
    reveal_strlit("tcpc");
    reveal_strlit("tcpclient");
    reveal_strlit("tcps");
    reveal_strlit("tcpserver");
    reveal_strlit("tlogr");
    reveal_strlit("tlogreader");
    reveal_strlit("tlogw");
    reveal_strlit("tlogwriter");
    reveal_strlit("udpc");
    reveal_strlit("udpclient");
    reveal_strlit("udpin");
    reveal_strlit("udpout");
    reveal_strlit("udps");
    reveal_strlit("udpserver");
    let e = spec_endpoints();
    assert(e[0].driver_ext.spec_valid_schemes() =~= seq!["tlogwriter"@, "tlogw"@]);
    assert(e[1].driver_ext.spec_valid_schemes() =~= seq!["tlogreader"@, "tlogr"@]);
    assert(e[2].driver_ext.spec_valid_schemes() =~= seq!["serial"@]);
    assert(e[3].driver_ext.spec_valid_schemes() =~= seq!["tcpc"@, "tcpclient"@]);
    assert(e[4].driver_ext.spec_valid_schemes() =~= seq!["tcps"@, "tcpserver"@]);
    assert(e[5].driver_ext.spec_valid_schemes() =~= seq!["udpclient"@, "udpout"@, "udpc"@]);
    assert(e[6].driver_ext.spec_valid_schemes() =~= seq!["udpserver"@, "udpin"@, "udps"@]);
    assert(e[7].driver_ext.spec_valid_schemes() =~= seq!["fakesink"@, "fakeclient"@, "fakec"@]);
    assert(e[7].driver_ext.spec_valid_schemes()[0] == "fakesink"@);
    assert forall|i: int| 0 <= i < 7 implies !(#[trigger] e[i]).driver_ext.spec_valid_schemes().contains("fakesink"@) by {
        if i == 0 { assert("tlogwriter"@.len() != "fakesink"@.len()); assert("tlogw"@.len() != "fakesink"@.len()); }
        if i == 1 { assert("tlogreader"@.len() != "fakesink"@.len()); assert("tlogr"@.len() != "fakesink"@.len()); }
        if i == 2 { assert("serial"@.len() != "fakesink"@.len()); }
        if i == 3 { assert("tcpc"@.len() != "fakesink"@.len()); assert("tcpclient"@.len() != "fakesink"@.len()); }
        if i == 4 { assert("tcps"@.len() != "fakesink"@.len()); assert("tcpserver"@.len() != "fakesink"@.len()); }
        if i == 5 { assert("udpclient"@.len() != "fakesink"@.len()); assert("udpout"@.len() != "fakesink"@.len()); assert("udpc"@.len() != "fakesink"@.len()); }
        if i == 6 { assert("udpserver"@.len() != "fakesink"@.len()); assert("udpin"@.len() != "fakesink"@.len()); assert("udps"@.len() != "fakesink"@.len()); }
    }
    lemma_first_with_scheme(e, "fakesink"@, 0, 7);
}

/// The scheme `fakesource` selects endpoint kind 8 of the accepted kinds.
proof fn lemma_scheme_selects_fakesource()
    ensures
        first_with_scheme(spec_endpoints(), "fakesource"@, 0) == Some(8int),
{
    reveal_strlit("fakec");
    reveal_strlit("fakeclient");
    reveal_strlit("fakes");
    reveal_strlit("fakeserver");
    reveal_strlit("fakesink");
    reveal_strlit("fakesource");
    reveal_strlit("fakesrc");
    reveal_strlit("serial");
    reveal_strlit("tcpc");
    reveal_strlit("tcpclient");
    reveal_strlit("tcps");
    reveal_strlit("tcpserver");
    reveal_strlit("tlogr");
    reveal_strlit("tlogreader");
    reveal_strlit("tlogw");
    reveal_strlit("tlogwriter");
    reveal_strlit("udpc");
    reveal_strlit("udpclient");
    reveal_strlit("udpin");
    reveal_strlit("udpout");
    reveal_strlit("udps");
    reveal_strlit("udpserver");
    let e = spec_endpoints();
    assert(e[0].driver_ext.spec_valid_schemes() =~= seq!["tlogwriter"@, "tlogw"@]);
    assert(e[1].driver_ext.spec_valid_schemes() =~= seq!["tlogreader"@, "tlogr"@]);
    assert(e[2].driver_ext.spec_valid_schemes() =~= seq!["serial"@]);
    assert(e[3].driver_ext.spec_valid_schemes() =~= seq!["tcpc"@, "tcpclient"@]);
    assert(e[4].driver_ext.spec_valid_schemes() =~= seq!["tcps"@, "tcpserver"@]);
    assert(e[5].driver_ext.spec_valid_schemes() =~= seq!["udpclient"@, "udpout"@, "udpc"@]);
    assert(e[6].driver_ext.spec_valid_schemes() =~= seq!["udpserver"@, "udpin"@, "udps"@]);
    assert(e[7].driver_ext.spec_valid_schemes() =~= seq!["fakesink"@, "fakeclient"@, "fakec"@]);
    assert(e[8].driver_ext.spec_valid_schemes() =~= seq!["fakesource"@, "fakeserver"@, "fakesrc"@, "fakes"@]);
    assert(e[8].driver_ext.spec_valid_schemes()[0] == "fakesource"@);
    assert forall|i: int| 0 <= i < 8 implies !(#[trigger] e[i]).driver_ext.spec_valid_schemes().contains("fakesource"@) by {
        if i == 0 { assert("tlogwriter"@[0] != "fakesource"@[0]); assert("tlogw"@.len() != "fakesource"@.len()); }
        if i == 1 { assert("tlogreader"@[0] != "fakesource"@[0]); assert("tlogr"@.len() != "fakesource"@.len()); }
        if i == 2 { assert("serial"@.len() != "fakesource"@.len()); }
        if i == 3 { assert("tcpc"@.len() != "fakesource"@.len()); assert("tcpclient"@.len() != "fakesource"@.len()); }
        if i == 4 { assert("tcps"@.len() != "fakesource"@.len()); assert("tcpserver"@.len() != "fakesource"@.len()); }
        if i == 5 { assert("udpclient"@.len() != "fakesource"@.len()); assert("udpout"@.len() != "fakesource"@.len()); assert("udpc"@.len() != "fakesource"@.len()); }
        if i == 6 { assert("udpserver"@.len() != "fakesource"@.len()); assert("udpin"@.len() != "fakesource"@.len()); assert("udps"@.len() != "fakesource"@.len()); }
        if i == 7 { assert("fakesink"@.len() != "fakesource"@.len()); assert("fakeclient"@[4] != "fakesource"@[4]); assert("fakec"@.len() != "fakesource"@.len()); }
    }
    lemma_first_with_scheme(e, "fakesource"@, 0, 8);
}

/// The scheme `zenoh` selects endpoint kind 9 of the accepted kinds.
proof fn lemma_scheme_selects_zenoh()
    ensures
        first_with_scheme(spec_endpoints(), "zenoh"@, 0) == Some(9int),
{
    reveal_strlit("fakec");
    reveal_strlit("fakeclient");
    reveal_strlit("fakes");
    reveal_strlit("fakeserver");
    reveal_strlit("fakesink");
    reveal_strlit("fakesource");
    reveal_strlit("fakesrc");
    reveal_strlit("serial");
    reveal_strlit("tcpc");
    reveal_strlit("tcpclient");
    reveal_strlit("tcps");
    reveal_strlit("tcpserver");
    reveal_strlit("tlogr");
    reveal_strlit("tlogreader");
    reveal_strlit("tlogw");
    reveal_strlit("tlogwriter");
    reveal_strlit("udpc");
    reveal_strlit("udpclient");
    reveal_strlit("udpin");
    reveal_strlit("udpout");
    reveal_strlit("udps");
    reveal_strlit("udpserver");
    reveal_strlit("zenoh");
    let e = spec_endpoints();
    assert(e[0].driver_ext.spec_valid_schemes() =~= seq!["tlogwriter"@, "tlogw"@]);
    assert(e[1].driver_ext.spec_valid_schemes() =~= seq!["tlogreader"@, "tlogr"@]);
    assert(e[2].driver_ext.spec_valid_schemes() =~= seq!["serial"@]);
    assert(e[3].driver_ext.spec_valid_schemes() =~= seq!["tcpc"@, "tcpclient"@]);
    assert(e[4].driver_ext.spec_valid_schemes() =~= seq!["tcps"@, "tcpserver"@]);
    assert(e[5].driver_ext.spec_valid_schemes() =~= seq!["udpclient"@, "udpout"@, "udpc"@]);
    assert(e[6].driver_ext.spec_valid_schemes() =~= seq!["udpserver"@, "udpin"@, "udps"@]);
    assert(e[7].driver_ext.spec_valid_schemes() =~= seq!["fakesink"@, "fakeclient"@, "fakec"@]);
    assert(e[8].driver_ext.spec_valid_schemes() =~= seq!["fakesource"@, "fakeserver"@, "fakesrc"@, "fakes"@]);
    assert(e[9].driver_ext.spec_valid_schemes() =~= seq!["zenoh"@]);
    assert(e[9].driver_ext.spec_valid_schemes()[0] == "zenoh"@);
    assert forall|i: int| 0 <= i < 9 implies !(#[trigger] e[i]).driver_ext.spec_valid_schemes().contains("zenoh"@) by {
        if i == 0 { assert("tlogwriter"@.len() != "zenoh"@.len()); assert("tlogw"@[0] != "zenoh"@[0]); }
        if i == 1 { assert("tlogreader"@.len() != "zenoh"@.len()); assert("tlogr"@[0] != "zenoh"@[0]); }
        if i == 2 { assert("serial"@.len() != "zenoh"@.len()); }
        if i == 3 { assert("tcpc"@.len() != "zenoh"@.len()); assert("tcpclient"@.len() != "zenoh"@.len()); }
        if i == 4 { assert("tcps"@.len() != "zenoh"@.len()); assert("tcpserver"@.len() != "zenoh"@.len()); }
        if i == 5 { assert("udpclient"@.len() != "zenoh"@.len()); assert("udpout"@.len() != "zenoh"@.len()); assert("udpc"@.len() != "zenoh"@.len()); }
        if i == 6 { assert("udpserver"@.len() != "zenoh"@.len()); assert("udpin"@[0] != "zenoh"@[0]); assert("udps"@.len() != "zenoh"@.len()); }
        if i == 7 { assert("fakesink"@.len() != "zenoh"@.len()); assert("fakeclient"@.len() != "zenoh"@.len()); assert("fakec"@[0] != "zenoh"@[0]); }
        if i == 8 { assert("fakesource"@.len() != "zenoh"@.len()); assert("fakeserver"@.len() != "zenoh"@.len()); assert("fakesrc"@.len() != "zenoh"@.len()); assert("fakes"@[0] != "zenoh"@[0]); }
    }
    lemma_first_with_scheme(e, "zenoh"@, 0, 9);
}

/// Every legacy entry an accepted endpoint kind shows as an example names, before its first
/// `:`, a scheme that selects that kind: the first kind whose schemes hold it is the kind
/// itself.
pub proof fn lemma_legacy_examples_select_their_kind()
    ensures
        forall|k: int, j: int|
            0 <= k < spec_endpoints().len() && 0 <= j < spec_endpoints()[k].driver_ext.spec_cli_example_legacy().len()
            ==> first_with_scheme(spec_endpoints(),
                legacy_scheme(#[trigger] spec_endpoints()[k].driver_ext.spec_cli_example_legacy()[j]), 0) == Some(k),
{
    lemma_scheme_selects_tlogwriter();
    lemma_scheme_selects_tlogreader();
    lemma_scheme_selects_tcpc();
    lemma_scheme_selects_tcpclient();
    lemma_scheme_selects_tcps();
    lemma_scheme_selects_tcpserver();
    lemma_scheme_selects_udpclient();
    lemma_scheme_selects_udpout();
    lemma_scheme_selects_udpserver();
    lemma_scheme_selects_udpin();
    lemma_scheme_selects_fakesink();
    lemma_scheme_selects_fakesource();
    lemma_scheme_selects_zenoh();
    assert forall|k: int, j: int|
        0 <= k < spec_endpoints().len() && 0 <= j < spec_endpoints()[k].driver_ext.spec_cli_example_legacy().len()
        implies first_with_scheme(spec_endpoints(),
            legacy_scheme(#[trigger] spec_endpoints()[k].driver_ext.spec_cli_example_legacy()[j]), 0) == Some(k) by {
        reveal_with_fuel(next_char_index, 12);
        if k == 0 {
            if j == 0 {
                reveal_strlit("tlogwriter:<FILE>");
                reveal_strlit("tlogwriter");
                assert(legacy_scheme("tlogwriter:<FILE>"@) =~= "tlogwriter"@);
                assert(spec_endpoints()[k].driver_ext.spec_cli_example_legacy()[j] == "tlogwriter:<FILE>"@);
            }
            if j == 1 {
                reveal_strlit("tlogwriter:<TLOGS_OUTPUT_DIR>");
                reveal_strlit("tlogwriter");
                assert(legacy_scheme("tlogwriter:<TLOGS_OUTPUT_DIR>"@) =~= "tlogwriter"@);
                assert(spec_endpoints()[k].driver_ext.spec_cli_example_legacy()[j] == "tlogwriter:<TLOGS_OUTPUT_DIR>"@);
            }
            if j == 2 {
                reveal_strlit("tlogwriter:/tmp/potato.tlog");
                reveal_strlit("tlogwriter");
                assert(legacy_scheme("tlogwriter:/tmp/potato.tlog"@) =~= "tlogwriter"@);
                assert(spec_endpoints()[k].driver_ext.spec_cli_example_legacy()[j] == "tlogwriter:/tmp/potato.tlog"@);
            }
            if j == 3 {
                reveal_strlit("tlogwriter:/tmp/tlogs_output_dir/");
                reveal_strlit("tlogwriter");
                assert(legacy_scheme("tlogwriter:/tmp/tlogs_output_dir/"@) =~= "tlogwriter"@);
                assert(spec_endpoints()[k].driver_ext.spec_cli_example_legacy()[j] == "tlogwriter:/tmp/tlogs_output_dir/"@);
            }
            if j == 4 {
                reveal_strlit("tlogwriter:<tmp/tlogs_output_dir>/?when=always");
                reveal_strlit("tlogwriter");
                assert(legacy_scheme("tlogwriter:<tmp/tlogs_output_dir>/?when=always"@) =~= "tlogwriter"@);
                assert(spec_endpoints()[k].driver_ext.spec_cli_example_legacy()[j] == "tlogwriter:<tmp/tlogs_output_dir>/?when=always"@);
            }
            if j == 5 {
                reveal_strlit("tlogwriter:<tmp/tlogs_output_dir>/?when=while_armed");
                reveal_strlit("tlogwriter");
                assert(legacy_scheme("tlogwriter:<tmp/tlogs_output_dir>/?when=while_armed"@) =~= "tlogwriter"@);
                assert(spec_endpoints()[k].driver_ext.spec_cli_example_legacy()[j] == "tlogwriter:<tmp/tlogs_output_dir>/?when=while_armed"@);
            }
        } else if k == 1 {
            if j == 0 {
                reveal_strlit("tlogreader:<FILE>");
                reveal_strlit("tlogreader");
                assert(legacy_scheme("tlogreader:<FILE>"@) =~= "tlogreader"@);
                assert(spec_endpoints()[k].driver_ext.spec_cli_example_legacy()[j] == "tlogreader:<FILE>"@);
            }
            if j == 1 {
                reveal_strlit("tlogreader:/tmp/potato.tlog");
                reveal_strlit("tlogreader");
                assert(legacy_scheme("tlogreader:/tmp/potato.tlog"@) =~= "tlogreader"@);
                assert(spec_endpoints()[k].driver_ext.spec_cli_example_legacy()[j] == "tlogreader:/tmp/potato.tlog"@);
            }
        } else if k == 3 {
            if j == 0 {
                reveal_strlit("tcpc:<IP>:<PORT>");
                reveal_strlit("tcpc");
                assert(legacy_scheme("tcpc:<IP>:<PORT>"@) =~= "tcpc"@);
                assert(spec_endpoints()[k].driver_ext.spec_cli_example_legacy()[j] == "tcpc:<IP>:<PORT>"@);
            }
            if j == 1 {
                reveal_strlit("tcpc:0.0.0.0:14550");
                reveal_strlit("tcpc");
                assert(legacy_scheme("tcpc:0.0.0.0:14550"@) =~= "tcpc"@);
                assert(spec_endpoints()[k].driver_ext.spec_cli_example_legacy()[j] == "tcpc:0.0.0.0:14550"@);
            }
            if j == 2 {
                reveal_strlit("tcpclient:127.0.0.1:14660");
                reveal_strlit("tcpclient");
                assert(legacy_scheme("tcpclient:127.0.0.1:14660"@) =~= "tcpclient"@);
                assert(spec_endpoints()[k].driver_ext.spec_cli_example_legacy()[j] == "tcpclient:127.0.0.1:14660"@);
            }
        } else if k == 4 {
            if j == 0 {
                reveal_strlit("tcps:<IP?>:<PORT>");
                reveal_strlit("tcps");
                assert(legacy_scheme("tcps:<IP?>:<PORT>"@) =~= "tcps"@);
                assert(spec_endpoints()[k].driver_ext.spec_cli_example_legacy()[j] == "tcps:<IP?>:<PORT>"@);
            }
            if j == 1 {
                reveal_strlit("tcps:14550");
                reveal_strlit("tcps");
                assert(legacy_scheme("tcps:14550"@) =~= "tcps"@);
                assert(spec_endpoints()[k].driver_ext.spec_cli_example_legacy()[j] == "tcps:14550"@);
            }
            if j == 2 {
                reveal_strlit("tcps:0.0.0.0:14550");
                reveal_strlit("tcps");
                assert(legacy_scheme("tcps:0.0.0.0:14550"@) =~= "tcps"@);
                assert(spec_endpoints()[k].driver_ext.spec_cli_example_legacy()[j] == "tcps:0.0.0.0:14550"@);
            }
            if j == 3 {
                reveal_strlit("tcpserver:127.0.0.1:14660");
                reveal_strlit("tcpserver");
                assert(legacy_scheme("tcpserver:127.0.0.1:14660"@) =~= "tcpserver"@);
                assert(spec_endpoints()[k].driver_ext.spec_cli_example_legacy()[j] == "tcpserver:127.0.0.1:14660"@);
            }
        } else if k == 5 {
            if j == 0 {
                reveal_strlit("udpclient:<IP>:<PORT>");
                reveal_strlit("udpclient");
                assert(legacy_scheme("udpclient:<IP>:<PORT>"@) =~= "udpclient"@);
                assert(spec_endpoints()[k].driver_ext.spec_cli_example_legacy()[j] == "udpclient:<IP>:<PORT>"@);
            }
            if j == 1 {
                reveal_strlit("udpclient:0.0.0.0:14550");
                reveal_strlit("udpclient");
                assert(legacy_scheme("udpclient:0.0.0.0:14550"@) =~= "udpclient"@);
                assert(spec_endpoints()[k].driver_ext.spec_cli_example_legacy()[j] == "udpclient:0.0.0.0:14550"@);
            }
            if j == 2 {
                reveal_strlit("udpout:192.168.2.1:14660");
                reveal_strlit("udpout");
                assert(legacy_scheme("udpout:192.168.2.1:14660"@) =~= "udpout"@);
                assert(spec_endpoints()[k].driver_ext.spec_cli_example_legacy()[j] == "udpout:192.168.2.1:14660"@);
            }
        } else if k == 6 {
            if j == 0 {
                reveal_strlit("udpserver:<IP>:<PORT>");
                reveal_strlit("udpserver");
                assert(legacy_scheme("udpserver:<IP>:<PORT>"@) =~= "udpserver"@);
                assert(spec_endpoints()[k].driver_ext.spec_cli_example_legacy()[j] == "udpserver:<IP>:<PORT>"@);
            }
            if j == 1 {
                reveal_strlit("udpserver:0.0.0.0:14550");
                reveal_strlit("udpserver");
                assert(legacy_scheme("udpserver:0.0.0.0:14550"@) =~= "udpserver"@);
                assert(spec_endpoints()[k].driver_ext.spec_cli_example_legacy()[j] == "udpserver:0.0.0.0:14550"@);
            }
            if j == 2 {
                reveal_strlit("udpin:127.0.0.1:14660");
                reveal_strlit("udpin");
                assert(legacy_scheme("udpin:127.0.0.1:14660"@) =~= "udpin"@);
                assert(spec_endpoints()[k].driver_ext.spec_cli_example_legacy()[j] == "udpin:127.0.0.1:14660"@);
            }
        } else if k == 7 {
            if j == 0 {
                reveal_strlit("fakesink:<MODE>");
                reveal_strlit("fakesink");
                assert(legacy_scheme("fakesink:<MODE>"@) =~= "fakesink"@);
                assert(spec_endpoints()[k].driver_ext.spec_cli_example_legacy()[j] == "fakesink:<MODE>"@);
            }
            if j == 1 {
                reveal_strlit("fakesink:debug");
                reveal_strlit("fakesink");
                assert(legacy_scheme("fakesink:debug"@) =~= "fakesink"@);
                assert(spec_endpoints()[k].driver_ext.spec_cli_example_legacy()[j] == "fakesink:debug"@);
            }
        } else if k == 8 {
            if j == 0 {
                reveal_strlit("fakesource:<MODE>");
                reveal_strlit("fakesource");
                assert(legacy_scheme("fakesource:<MODE>"@) =~= "fakesource"@);
                assert(spec_endpoints()[k].driver_ext.spec_cli_example_legacy()[j] == "fakesource:<MODE>"@);
            }
            if j == 1 {
                reveal_strlit("fakesource:heartbeat");
                reveal_strlit("fakesource");
                assert(legacy_scheme("fakesource:heartbeat"@) =~= "fakesource"@);
                assert(spec_endpoints()[k].driver_ext.spec_cli_example_legacy()[j] == "fakesource:heartbeat"@);
            }
        } else if k == 9 {
            if j == 0 {
                reveal_strlit("zenoh:<IP>:<PORT>");
                reveal_strlit("zenoh");
                assert(legacy_scheme("zenoh:<IP>:<PORT>"@) =~= "zenoh"@);
                assert(spec_endpoints()[k].driver_ext.spec_cli_example_legacy()[j] == "zenoh:<IP>:<PORT>"@);
            }
        }
    }
}

} // verus!
