//! The values of a settings document: their kinds, how each is written and
//! how it is read back.

use crate::address::{
    ip_of, ip_text, ipv4_of, ipv4_text, ipv6_of, ipv6_text, lemma_ip_round_trip,
    lemma_ipv4_round_trip, lemma_ipv6_round_trip, parse_ip, parse_ipv4, parse_ipv6, write_ip,
    write_ipv4, write_ipv6, IpAddress, Ipv4Address, Ipv6Address,
};
use crate::number::{
    all_digits, digits_of, is_digit, lemma_digits_round_trip, lemma_thousandths_round_trip,
    places_of, read_number, read_thousandths, reading_of, thousandths_of, thousandths_text,
    value_of, write_number, write_thousandths, Reading,
};
use crate::quote::{
    escaped, lemma_escaped_one_line, lemma_scan_escaped, lemma_unquoted_quoted, quoted,
    read_quoted, scan_quoted, scanned, unquoted, write_quoted,
};
use crate::session::{EncryptionMode, LogLevel, PreallocationMode, Ratio};
use crate::text::{
    append_chars, append_str, chars_of, is_space, piece, spells, text_of, text_view, texts_view,
    views,
};
use crate::urls::{canonical_url, url_canonical};
use vstd::prelude::*;

verus! {

/// The kinds of values that a settings document holds.
#[derive(Clone, Copy, Debug, PartialEq, Eq, Structural)]
pub enum Kind {
    /// `true` or `false`.
    Flag,
    /// A number in decimal digits, up to the bound that the kind holds.
    Count(u32),
    /// A quoted text.
    Text,
    /// A quoted path; the only kind of value that a document may leave out.
    Path,
    /// A quoted URL, kept in its canonical form.
    Url,
    /// The quoted name of an encryption mode.
    Encryption,
    /// The quoted name of a log level.
    Level,
    /// The quoted name of a preallocation mode.
    Preallocation,
    /// A number with up to three decimal places.
    Ratio,
    /// A quoted address of either family.
    Address,
    /// A quoted IPv4 address.
    Address4,
    /// A quoted IPv6 address.
    Address6,
    /// A list of quoted addresses of either family.
    Addresses,
    /// A list of quoted texts.
    Texts,
}

/// A value of a settings document.
#[derive(Clone, Debug, PartialEq, Eq)]
pub enum Value {
    Flag(bool),
    Count(u32),
    Text(String),
    Path(Option<String>),
    Encryption(EncryptionMode),
    Level(LogLevel),
    Preallocation(PreallocationMode),
    Ratio(Ratio),
    Address(IpAddress),
    Address4(Ipv4Address),
    Address6(Ipv6Address),
    Addresses(Vec<IpAddress>),
    Texts(Vec<String>),
}

/// What a [`Value`] holds, with texts as sequences of characters.
pub enum ValueView {
    Flag(bool),
    Count(u32),
    Text(Seq<char>),
    Path(Option<Seq<char>>),
    Encryption(EncryptionMode),
    Level(LogLevel),
    Preallocation(PreallocationMode),
    Ratio(Ratio),
    Address(IpAddress),
    Address4(Ipv4Address),
    Address6(Ipv6Address),
    Addresses(Seq<IpAddress>),
    Texts(Seq<Seq<char>>),
}

impl View for Value {
    type V = ValueView;

    open spec fn view(&self) -> ValueView {
        match self {
            Value::Flag(flag) => ValueView::Flag(*flag),
            Value::Count(count) => ValueView::Count(*count),
            Value::Text(text) => ValueView::Text(text@),
            Value::Path(path) => ValueView::Path(text_view(*path)),
            Value::Encryption(mode) => ValueView::Encryption(*mode),
            Value::Level(level) => ValueView::Level(*level),
            Value::Preallocation(mode) => ValueView::Preallocation(*mode),
            Value::Ratio(ratio) => ValueView::Ratio(*ratio),
            Value::Address(address) => ValueView::Address(*address),
            Value::Address4(address) => ValueView::Address4(*address),
            Value::Address6(address) => ValueView::Address6(*address),
            Value::Addresses(addresses) => ValueView::Addresses(addresses@),
            Value::Texts(texts) => ValueView::Texts(texts_view(texts@)),
        }
    }
}

/// Why a value could not be read.
#[derive(Clone, Debug, PartialEq, Eq)]
pub enum Fault {
    /// The text is not written as values of the kind are.
    Invalid,
    /// The number lies outside the bounds of the kind.
    OutOfRange,
    /// The name is none of the kind's names; holds the name.
    UnknownVariant(String),
}

/// What a [`Fault`] holds, with texts as sequences of characters.
pub enum FaultView {
    Invalid,
    OutOfRange,
    UnknownVariant(Seq<char>),
}

impl View for Fault {
    type V = FaultView;

    open spec fn view(&self) -> FaultView {
        match self {
            Fault::Invalid => FaultView::Invalid,
            Fault::OutOfRange => FaultView::OutOfRange,
            Fault::UnknownVariant(name) => FaultView::UnknownVariant(name@),
        }
    }
}

/// Whether a value is of the kind and within its bounds.
pub open spec fn conforms(value: ValueView, kind: Kind) -> bool {
    match kind {
        Kind::Flag => value is Flag,
        Kind::Count(max) => value matches ValueView::Count(count) && count <= max,
        Kind::Text => value is Text,
        Kind::Path => value is Path,
        Kind::Url => value is Text,
        Kind::Encryption => value is Encryption,
        Kind::Level => value is Level,
        Kind::Preallocation => value is Preallocation,
        Kind::Ratio => value is Ratio,
        Kind::Address => value is Address,
        Kind::Address4 => value is Address4,
        Kind::Address6 => value is Address6,
        Kind::Addresses => value is Addresses,
        Kind::Texts => value is Texts,
    }
}

/// The name of an encryption mode.
pub open spec fn encryption_name(mode: EncryptionMode) -> Seq<char> {
    match mode {
        EncryptionMode::ClearPreferred => "ClearPreferred"@,
        EncryptionMode::EncryptionPreferred => "EncryptionPreferred"@,
        EncryptionMode::EncryptionRequired => "EncryptionRequired"@,
    }
}

/// The encryption mode of a name.
pub open spec fn encryption_named(name: Seq<char>) -> Option<EncryptionMode> {
    if name == "ClearPreferred"@ {
        Some(EncryptionMode::ClearPreferred)
    } else if name == "EncryptionPreferred"@ {
        Some(EncryptionMode::EncryptionPreferred)
    } else if name == "EncryptionRequired"@ {
        Some(EncryptionMode::EncryptionRequired)
    } else {
        None
    }
}

/// The name of a log level.
pub open spec fn level_name(level: LogLevel) -> Seq<char> {
    match level {
        LogLevel::Error => "Error"@,
        LogLevel::Info => "Info"@,
        LogLevel::Debug => "Debug"@,
        LogLevel::Firehose => "Firehose"@,
    }
}

/// The log level of a name.
pub open spec fn level_named(name: Seq<char>) -> Option<LogLevel> {
    if name == "Error"@ {
        Some(LogLevel::Error)
    } else if name == "Info"@ {
        Some(LogLevel::Info)
    } else if name == "Debug"@ {
        Some(LogLevel::Debug)
    } else if name == "Firehose"@ {
        Some(LogLevel::Firehose)
    } else {
        None
    }
}

/// The name of a preallocation mode.
pub open spec fn preallocation_name(mode: PreallocationMode) -> Seq<char> {
    match mode {
        PreallocationMode::Off => "None"@,
        PreallocationMode::Sparse => "Sparse"@,
        PreallocationMode::Full => "Full"@,
    }
}

/// The preallocation mode of a name.
pub open spec fn preallocation_named(name: Seq<char>) -> Option<PreallocationMode> {
    if name == "None"@ {
        Some(PreallocationMode::Off)
    } else if name == "Sparse"@ {
        Some(PreallocationMode::Sparse)
    } else if name == "Full"@ {
        Some(PreallocationMode::Full)
    } else {
        None
    }
}

/// The quoted items with a comma between each two of them.
pub open spec fn list_body(items: Seq<Seq<char>>) -> Seq<char>
    decreases items.len(),
{
    if items.len() == 0 {
        Seq::empty()
    } else if items.len() == 1 {
        quoted(items[0])
    } else {
        quoted(items[0]).push(',') + list_body(items.skip(1))
    }
}

/// A list as it is written: the quoted items between square brackets, with
/// commas and nothing else between them.
pub open spec fn list_text(items: Seq<Seq<char>>) -> Seq<char> {
    seq!['['] + list_body(items) + seq![']']
}

/// The items of a list from the quote at `from` up to the closing bracket,
/// which ends the text.
pub open spec fn items_from(s: Seq<char>, from: int) -> Option<Seq<Seq<char>>>
    decreases s.len() - from,
{
    if from < 0 || from >= s.len() || s[from] != '"' {
        None
    } else {
        match scanned(s, from + 1) {
            None => None,
            Some((item, end)) => if end <= from || end >= s.len() {
                None
            } else if s[end] == ']' {
                if end + 1 == s.len() {
                    Some(seq![item])
                } else {
                    None
                }
            } else if s[end] == ',' {
                match items_from(s, end + 1) {
                    Some(rest) => Some(seq![item] + rest),
                    None => None,
                }
            } else {
                None
            },
        }
    }
}

/// The items of a list, if the text is a list.
pub open spec fn listed(s: Seq<char>) -> Option<Seq<Seq<char>>> {
    if s.len() >= 2 && s[0] == '[' {
        if s.len() == 2 && s[1] == ']' {
            Some(Seq::empty())
        } else {
            items_from(s, 1)
        }
    } else {
        None
    }
}

/// The addresses that the items write, if each of them writes one.
pub open spec fn addresses_of(items: Seq<Seq<char>>) -> Option<Seq<IpAddress>>
    decreases items.len(),
{
    if items.len() == 0 {
        Some(Seq::empty())
    } else {
        match (addresses_of(items.drop_last()), ip_of(items.last())) {
            (Some(addresses), Some(address)) => Some(addresses.push(address)),
            _ => None,
        }
    }
}

/// What reading a number after a minus sign comes to: the number is out of
/// range where digits follow the sign.
pub open spec fn negative_fault(rest: Reading) -> FaultView {
    if rest is Malformed {
        FaultView::Invalid
    } else {
        FaultView::OutOfRange
    }
}

/// What reading `raw` as a number up to `max` comes to.
pub open spec fn count_read(raw: Seq<char>, max: u32) -> Result<ValueView, FaultView> {
    if raw.len() > 0 && raw[0] == '-' {
        Err(negative_fault(reading_of(raw.skip(1), 10, max as nat)))
    } else {
        match reading_of(raw, 10, max as nat) {
            Reading::Number(count) => Ok(ValueView::Count(count)),
            Reading::TooLarge => Err(FaultView::OutOfRange),
            Reading::Malformed => Err(FaultView::Invalid),
        }
    }
}

/// What reading `raw` as a ratio comes to.
pub open spec fn ratio_read(raw: Seq<char>) -> Result<ValueView, FaultView> {
    if raw.len() > 0 && raw[0] == '-' {
        Err(negative_fault(thousandths_of(raw.skip(1))))
    } else {
        match thousandths_of(raw) {
            Reading::Number(thousandths) => Ok(ValueView::Ratio(Ratio { thousandths })),
            Reading::TooLarge => Err(FaultView::OutOfRange),
            Reading::Malformed => Err(FaultView::Invalid),
        }
    }
}

/// What reading the quoted text `text` as a value of the kind comes to.
pub open spec fn quoted_read(kind: Kind, text: Seq<char>) -> Result<ValueView, FaultView> {
    match kind {
        Kind::Text => Ok(ValueView::Text(text)),
        Kind::Path => Ok(ValueView::Path(Some(text))),
        Kind::Url => match url_canonical(text) {
            Some(url) => Ok(ValueView::Text(url)),
            None => Err(FaultView::Invalid),
        },
        Kind::Encryption => match encryption_named(text) {
            Some(mode) => Ok(ValueView::Encryption(mode)),
            None => Err(FaultView::UnknownVariant(text)),
        },
        Kind::Level => match level_named(text) {
            Some(level) => Ok(ValueView::Level(level)),
            None => Err(FaultView::UnknownVariant(text)),
        },
        Kind::Preallocation => match preallocation_named(text) {
            Some(mode) => Ok(ValueView::Preallocation(mode)),
            None => Err(FaultView::UnknownVariant(text)),
        },
        Kind::Address => match ip_of(text) {
            Some(address) => Ok(ValueView::Address(address)),
            None => Err(FaultView::Invalid),
        },
        Kind::Address4 => match ipv4_of(text) {
            Some(address) => Ok(ValueView::Address4(address)),
            None => Err(FaultView::Invalid),
        },
        Kind::Address6 => match ipv6_of(text) {
            Some(address) => Ok(ValueView::Address6(address)),
            None => Err(FaultView::Invalid),
        },
        _ => Err(FaultView::Invalid),
    }
}

/// What reading the items of a list as a value of the kind comes to.
pub open spec fn list_read(kind: Kind, items: Seq<Seq<char>>) -> Result<ValueView, FaultView> {
    match kind {
        Kind::Addresses => match addresses_of(items) {
            Some(addresses) => Ok(ValueView::Addresses(addresses)),
            None => Err(FaultView::Invalid),
        },
        Kind::Texts => Ok(ValueView::Texts(items)),
        _ => Err(FaultView::Invalid),
    }
}

/// What reading `raw`, the text after the `=` of a line without the white
/// space around it, as a value of the kind comes to.
pub open spec fn value_read(kind: Kind, raw: Seq<char>) -> Result<ValueView, FaultView> {
    match kind {
        Kind::Flag => if raw == "true"@ {
            Ok(ValueView::Flag(true))
        } else if raw == "false"@ {
            Ok(ValueView::Flag(false))
        } else {
            Err(FaultView::Invalid)
        },
        Kind::Count(max) => count_read(raw, max),
        Kind::Ratio => ratio_read(raw),
        Kind::Addresses | Kind::Texts => match listed(raw) {
            Some(items) => list_read(kind, items),
            None => Err(FaultView::Invalid),
        },
        _ => match unquoted(raw) {
            Some(text) => quoted_read(kind, text),
            None => Err(FaultView::Invalid),
        },
    }
}

/// The text of a value as a document holds it after the `=`. A path that is
/// not set has none and is left out.
pub open spec fn value_text(value: ValueView) -> Seq<char> {
    match value {
        ValueView::Flag(flag) => if flag {
            "true"@
        } else {
            "false"@
        },
        ValueView::Count(count) => digits_of(count as nat, 10),
        ValueView::Text(text) => quoted(text),
        ValueView::Path(Some(path)) => quoted(path),
        ValueView::Path(None) => Seq::empty(),
        ValueView::Encryption(mode) => quoted(encryption_name(mode)),
        ValueView::Level(level) => quoted(level_name(level)),
        ValueView::Preallocation(mode) => quoted(preallocation_name(mode)),
        ValueView::Ratio(ratio) => thousandths_text(ratio.thousandths as nat),
        ValueView::Address(address) => quoted(ip_text(address)),
        ValueView::Address4(address) => quoted(ipv4_text(address)),
        ValueView::Address6(address) => quoted(ipv6_text(address)),
        ValueView::Addresses(addresses) => list_text(
            addresses.map_values(|address: IpAddress| ip_text(address)),
        ),
        ValueView::Texts(texts) => list_text(texts),
    }
}

/// Whether a value is written into a document: all are but a path that is not
/// set.
pub open spec fn is_written(value: ValueView) -> bool {
    value != ValueView::Path(None)
}

/// Whether a value reads back as itself: a URL has to be in canonical form.
pub open spec fn is_stable(value: ValueView, kind: Kind) -> bool {
    kind == Kind::Url ==> (value matches ValueView::Text(url) && url_canonical(url) == Some(url))
}

/// A character that neither of two texts holds is not held by both together.
pub proof fn lemma_lacks_concat(a: Seq<char>, b: Seq<char>, c: char)
    requires
        !a.contains(c),
        !b.contains(c),
    ensures
        !(a + b).contains(c),
{
    if (a + b).contains(c) {
        let k = choose|k: int| 0 <= k < (a + b).len() && (a + b)[k] == c;
        if k < a.len() {
            assert(a[k] == c);
        } else {
            assert(b[k - a.len()] == c);
        }
    }
}

/// A name reads back as the mode or level that it names.
pub proof fn lemma_names_round_trip()
    ensures
        forall|mode: EncryptionMode| #[trigger]
            encryption_named(encryption_name(mode)) == Some(mode),
        forall|level: LogLevel| #[trigger] level_named(level_name(level)) == Some(level),
        forall|mode: PreallocationMode| #[trigger]
            preallocation_named(preallocation_name(mode)) == Some(mode),
{
    reveal_strlit("ClearPreferred");
    reveal_strlit("EncryptionPreferred");
    reveal_strlit("EncryptionRequired");
    reveal_strlit("Error");
    reveal_strlit("Info");
    reveal_strlit("Debug");
    reveal_strlit("Firehose");
    reveal_strlit("None");
    reveal_strlit("Sparse");
    reveal_strlit("Full");
    assert("ClearPreferred"@.len() == 14);
    assert("EncryptionPreferred"@.len() == 19);
    assert("EncryptionRequired"@.len() == 18);
    assert("Error"@.len() == 5 && "Info"@.len() == 4);
    assert("Debug"@.len() == 5 && "Firehose"@.len() == 8);
    assert("None"@.len() == 4 && "Sparse"@.len() == 6 && "Full"@.len() == 4);
    assert("Error"@[0] != "Debug"@[0]);
    assert("None"@[0] != "Full"@[0]);
}

/// A quoted text has a quote at either end and holds no line feed.
pub proof fn lemma_quoted_tight(text: Seq<char>)
    ensures
        quoted(text).len() >= 2,
        quoted(text)[0] == '"',
        quoted(text).last() == '"',
        !quoted(text).contains('\n'),
{
    lemma_escaped_one_line(text);
    let open = seq!['"'];
    assert(!open.contains('\n'));
    lemma_lacks_concat(open, escaped(text), '\n');
    lemma_lacks_concat(open + escaped(text), open, '\n');
}

/// The items of a list are read back from where its first quote stands.
pub proof fn lemma_items_from(before: Seq<char>, items: Seq<Seq<char>>)
    requires
        items.len() >= 1,
    ensures
        items_from(before + list_body(items) + seq![']'], before.len() as int) == Some(items),
    decreases items.len(),
{
    let s = before + list_body(items) + seq![']'];
    let from = before.len() as int;
    let first = items[0];
    lemma_quoted_tight(first);
    if items.len() == 1 {
        lemma_scan_escaped(before + seq!['"'], first, seq![']']);
        assert(before + seq!['"'] + escaped(first) + seq!['"'] + seq![']'] =~= s);
        assert(s[from] == '"');
        let end = from + 1 + escaped(first).len() + 1;
        assert(s[end] == ']');
        assert(items =~= seq![first]);
    } else {
        let rest = items.skip(1);
        let after = seq![','] + list_body(rest) + seq![']'];
        lemma_scan_escaped(before + seq!['"'], first, after);
        assert(before + seq!['"'] + escaped(first) + seq!['"'] + after =~= s);
        assert(s[from] == '"');
        let end = from + 1 + escaped(first).len() + 1;
        assert(s[end] == ',');
        let next = before + quoted(first).push(',');
        lemma_items_from(next, rest);
        assert(next + list_body(rest) + seq![']'] =~= s);
        assert(next.len() == end + 1);
        assert(seq![first] + rest =~= items);
    }
}

/// Reading a list as it is written gives its items.
pub proof fn lemma_listed_list_text(items: Seq<Seq<char>>)
    ensures
        listed(list_text(items)) == Some(items),
{
    let s = list_text(items);
    if items.len() == 0 {
        assert(s =~= seq!['[', ']']);
        assert(items =~= Seq::<Seq<char>>::empty());
    } else {
        lemma_quoted_tight(items[0]);
        lemma_items_from(seq!['['], items);
        assert(list_body(items).len() >= 2) by {
            if items.len() > 1 {
                assert(list_body(items).len() >= quoted(items[0]).len());
            }
        }
    }
}

/// A list as it is written has a bracket at either end and holds no line
/// feed.
pub proof fn lemma_list_text_tight(items: Seq<Seq<char>>)
    ensures
        list_text(items).len() >= 2,
        list_text(items)[0] == '[',
        list_text(items).last() == ']',
        !list_text(items).contains('\n'),
{
    lemma_list_body_one_line(items);
    assert(!seq!['['].contains('\n'));
    assert(!seq![']'].contains('\n'));
    lemma_lacks_concat(seq!['['], list_body(items), '\n');
    lemma_lacks_concat(seq!['['] + list_body(items), seq![']'], '\n');
}

/// The items of a list as they are written hold no line feed.
proof fn lemma_list_body_one_line(items: Seq<Seq<char>>)
    ensures
        !list_body(items).contains('\n'),
    decreases items.len(),
{
    if items.len() == 0 {
    } else if items.len() == 1 {
        lemma_quoted_tight(items[0]);
    } else {
        lemma_quoted_tight(items[0]);
        lemma_list_body_one_line(items.skip(1));
        assert(!seq![','].contains('\n'));
        assert(quoted(items[0]).push(',') =~= quoted(items[0]) + seq![',']);
        lemma_lacks_concat(quoted(items[0]), seq![','], '\n');
        lemma_lacks_concat(quoted(items[0]).push(','), list_body(items.skip(1)), '\n');
    }
}

/// The texts of addresses read back as the addresses.
pub proof fn lemma_addresses_round_trip(addresses: Seq<IpAddress>)
    ensures
        addresses_of(addresses.map_values(|address: IpAddress| ip_text(address))) == Some(
            addresses,
        ),
    decreases addresses.len(),
{
    let items = addresses.map_values(|address: IpAddress| ip_text(address));
    if addresses.len() > 0 {
        lemma_addresses_round_trip(addresses.drop_last());
        lemma_ip_round_trip(addresses.last());
        assert(items.drop_last() =~= addresses.drop_last().map_values(
            |address: IpAddress| ip_text(address),
        ));
        assert(addresses.drop_last().push(addresses.last()) =~= addresses);
    } else {
        assert(addresses =~= Seq::<IpAddress>::empty());
    }
}

/// Digits are neither white space nor line feeds nor minus signs.
proof fn lemma_digits_tight(s: Seq<char>)
    requires
        s.len() > 0,
        all_digits(s, 10),
    ensures
        !is_space(s[0]),
        !is_space(s.last()),
        s[0] != '-',
        !s.contains('\n'),
{
    assert(is_digit(s[0], 10));
    assert(is_digit(s[s.len() - 1], 10));
    if s.contains('\n') {
        let k = choose|k: int| 0 <= k < s.len() && s[k] == '\n';
        assert(is_digit(s[k], 10));
    }
}

/// The text of a value that is written is not empty, has no white space at
/// either end and holds no line feed.
pub proof fn lemma_value_text_tight(value: ValueView)
    requires
        is_written(value),
    ensures
        value_text(value).len() > 0,
        !is_space(value_text(value)[0]),
        !is_space(value_text(value).last()),
        !value_text(value).contains('\n'),
{
    let text = value_text(value);
    match value {
        ValueView::Flag(flag) => {
            reveal_strlit("true");
            reveal_strlit("false");
            if text.contains('\n') {
                let k = choose|k: int| 0 <= k < text.len() && text[k] == '\n';
                assert(text[k] == '\n');
            }
        },
        ValueView::Count(count) => {
            lemma_digits_round_trip(count as nat, 10);
            lemma_digits_tight(text);
        },
        ValueView::Ratio(ratio) => {
            let n = ratio.thousandths as nat;
            let whole = digits_of(n / 1000, 10);
            let places = places_of(n % 1000);
            lemma_digits_round_trip(n / 1000, 10);
            lemma_digits_tight(whole);
            assert(text[0] == whole[0]);
            assert(text.last() == places[2]);
            assert(!seq!['.'].contains('\n'));
            assert(!places.contains('\n'));
            assert(whole.push('.') =~= whole + seq!['.']);
            lemma_lacks_concat(whole, seq!['.'], '\n');
            lemma_lacks_concat(whole.push('.'), places, '\n');
        },
        ValueView::Text(inner) => lemma_quoted_tight(inner),
        ValueView::Path(path) => lemma_quoted_tight(path->0),
        ValueView::Encryption(mode) => lemma_quoted_tight(encryption_name(mode)),
        ValueView::Level(level) => lemma_quoted_tight(level_name(level)),
        ValueView::Preallocation(mode) => lemma_quoted_tight(preallocation_name(mode)),
        ValueView::Address(address) => lemma_quoted_tight(ip_text(address)),
        ValueView::Address4(address) => lemma_quoted_tight(ipv4_text(address)),
        ValueView::Address6(address) => lemma_quoted_tight(ipv6_text(address)),
        ValueView::Addresses(addresses) => lemma_list_text_tight(
            addresses.map_values(|address: IpAddress| ip_text(address)),
        ),
        ValueView::Texts(texts) => lemma_list_text_tight(texts),
    }
}

/// Reading the text of a value gives the value, where the value is of the
/// kind, is written and is stable.
pub proof fn lemma_value_round_trip(value: ValueView, kind: Kind)
    requires
        conforms(value, kind),
        is_written(value),
        is_stable(value, kind),
    ensures
        value_read(kind, value_text(value)) == Ok::<ValueView, FaultView>(value),
{
    let text = value_text(value);
    lemma_names_round_trip();
    match value {
        ValueView::Flag(flag) => {
            reveal_strlit("true");
            reveal_strlit("false");
        },
        ValueView::Count(count) => {
            lemma_digits_round_trip(count as nat, 10);
            lemma_digits_tight(text);
        },
        ValueView::Ratio(ratio) => {
            let n = ratio.thousandths as nat;
            lemma_digits_round_trip(n / 1000, 10);
            lemma_digits_tight(digits_of(n / 1000, 10));
            assert(text[0] == digits_of(n / 1000, 10)[0]);
            lemma_thousandths_round_trip(ratio.thousandths);
        },
        ValueView::Text(inner) => lemma_unquoted_quoted(inner),
        ValueView::Path(path) => lemma_unquoted_quoted(path->0),
        ValueView::Encryption(mode) => lemma_unquoted_quoted(encryption_name(mode)),
        ValueView::Level(level) => lemma_unquoted_quoted(level_name(level)),
        ValueView::Preallocation(mode) => lemma_unquoted_quoted(preallocation_name(mode)),
        ValueView::Address(address) => {
            lemma_unquoted_quoted(ip_text(address));
            lemma_ip_round_trip(address);
        },
        ValueView::Address4(address) => {
            lemma_unquoted_quoted(ipv4_text(address));
            lemma_ipv4_round_trip(address);
        },
        ValueView::Address6(address) => {
            lemma_unquoted_quoted(ipv6_text(address));
            lemma_ipv6_round_trip(address);
        },
        ValueView::Addresses(addresses) => {
            lemma_listed_list_text(addresses.map_values(|address: IpAddress| ip_text(address)));
            lemma_addresses_round_trip(addresses);
        },
        ValueView::Texts(texts) => lemma_listed_list_text(texts),
    }
}

/// A number is out of range where its digits write more than the bound of its
/// kind, and where digits follow a minus sign.
pub proof fn law_count_out_of_range(raw: Seq<char>, max: u32)
    ensures
        raw.len() > 0 && all_digits(raw, 10) && value_of(raw, 10) > max ==> value_read(
            Kind::Count(max),
            raw,
        ) == Err::<ValueView, FaultView>(FaultView::OutOfRange),
        raw.len() > 1 && raw[0] == '-' && all_digits(raw.skip(1), 10) ==> value_read(
            Kind::Count(max),
            raw,
        ) == Err::<ValueView, FaultView>(FaultView::OutOfRange),
{
    if raw.len() > 0 && all_digits(raw, 10) {
        assert(is_digit(raw[0], 10));
    }
}

/// A value that was read is of the kind that it was read as, and within its
/// bounds.
pub proof fn lemma_read_conforms(kind: Kind, raw: Seq<char>)
    ensures
        value_read(kind, raw) matches Ok(value) ==> conforms(value, kind),
{
}

/// Writes a list of items at the end of `out`.
pub fn write_list(out: &mut Vec<char>, items: &Vec<Vec<char>>)
    ensures
        final(out)@ == old(out)@ + list_text(views(items@)),
{
    let ghost all = views(items@);
    out.push('[');
    let mut i: usize = 0;
    assert(all.skip(0) =~= all);
    while i < items.len()
        invariant
            i <= items.len(),
            all == views(items@),
            out@ + list_body(all.skip(i as int)) == old(out)@ + seq!['['] + list_body(all),
        decreases items.len() - i,
    {
        let ghost before = out@;
        let ghost rest = all.skip(i as int);
        assert(rest[0] == items@[i as int]@);
        assert(rest.skip(1) =~= all.skip(i + 1));
        write_quoted(out, &items[i]);
        if i + 1 < items.len() {
            out.push(',');
            assert(out@ + list_body(rest.skip(1)) =~= before + list_body(rest));
        } else {
            assert(list_body(rest.skip(1)) =~= Seq::<char>::empty());
            assert(out@ + list_body(rest.skip(1)) =~= before + list_body(rest));
        }
        i += 1;
    }
    assert(list_body(all.skip(items.len() as int)) =~= Seq::<char>::empty());
    assert(out@ =~= out@ + Seq::<char>::empty());
    out.push(']');
    assert(out@ =~= old(out)@ + list_text(all));
}

/// Computes [`listed`].
pub fn read_list(s: &Vec<char>) -> (items: Option<Vec<Vec<char>>>)
    ensures
        match items {
            Some(found) => listed(s@) == Some(views(found@)),
            None => listed(s@) is None,
        },
{
    if s.len() < 2 || s[0] != '[' {
        return None;
    }
    let mut found: Vec<Vec<char>> = Vec::new();
    if s.len() == 2 && s[1] == ']' {
        assert(views(found@) =~= Seq::<Seq<char>>::empty());
        return Some(found);
    }
    let mut from: usize = 1;
    loop
        invariant
            1 <= from,
            s.len() >= 2,
            listed(s@) == items_from(s@, 1),
            items_from(s@, 1) == match items_from(s@, from as int) {
                Some(rest) => Some(views(found@) + rest),
                None => None,
            },
        decreases s.len() - from,
    {
        if from >= s.len() || s[from] != '"' {
            return None;
        }
        let (item, end) = match scan_quoted(s, from + 1) {
            Some(pair) => pair,
            None => {
                return None;
            },
        };
        if end >= s.len() {
            return None;
        }
        let ghost before = views(found@);
        let ghost text = item@;
        if s[end] == ']' {
            if end + 1 != s.len() {
                return None;
            }
            found.push(item);
            assert(views(found@) =~= before + seq![text]);
            return Some(found);
        } else if s[end] == ',' {
            found.push(item);
            assert forall|rest: Seq<Seq<char>>| before + (seq![text] + rest) == views(found@)
                + rest by {
                assert(before + (seq![text] + rest) =~= views(found@) + rest);
            }
            from = end + 1;
        } else {
            return None;
        }
    }
}

/// Where some items write no addresses, no longer run of items does.
proof fn lemma_addresses_of_prefix(items: Seq<Seq<char>>, count: int)
    requires
        0 <= count <= items.len(),
        addresses_of(items.subrange(0, count)) is None,
    ensures
        addresses_of(items) is None,
    decreases items.len() - count,
{
    if count < items.len() {
        assert(items.subrange(0, count + 1).drop_last() =~= items.subrange(0, count));
        lemma_addresses_of_prefix(items, count + 1);
    } else {
        assert(items.subrange(0, count) =~= items);
    }
}

/// Computes [`addresses_of`].
pub fn read_addresses(items: &Vec<Vec<char>>) -> (addresses: Option<Vec<IpAddress>>)
    ensures
        match addresses {
            Some(found) => addresses_of(views(items@)) == Some(found@),
            None => addresses_of(views(items@)) is None,
        },
{
    let ghost all = views(items@);
    let mut found: Vec<IpAddress> = Vec::new();
    let mut i: usize = 0;
    assert(all.subrange(0, 0) =~= Seq::<Seq<char>>::empty());
    while i < items.len()
        invariant
            i <= items.len(),
            all == views(items@),
            addresses_of(all.subrange(0, i as int)) == Some(found@),
        decreases items.len() - i,
    {
        assert(all.subrange(0, i + 1).drop_last() =~= all.subrange(0, i as int));
        assert(all.subrange(0, i + 1).last() == items@[i as int]@);
        match parse_ip(&items[i]) {
            Some(address) => {
                found.push(address);
            },
            None => {
                proof {
                    lemma_addresses_of_prefix(all, i + 1);
                }
                return None;
            },
        }
        i += 1;
    }
    assert(all.subrange(0, items.len() as int) =~= all);
    Some(found)
}

/// The name of an encryption mode as a string.
pub fn encryption_str(mode: EncryptionMode) -> (name: &'static str)
    ensures
        name@ == encryption_name(mode),
{
    match mode {
        EncryptionMode::ClearPreferred => "ClearPreferred",
        EncryptionMode::EncryptionPreferred => "EncryptionPreferred",
        EncryptionMode::EncryptionRequired => "EncryptionRequired",
    }
}

/// The name of a log level as a string.
pub fn level_str(level: LogLevel) -> (name: &'static str)
    ensures
        name@ == level_name(level),
{
    match level {
        LogLevel::Error => "Error",
        LogLevel::Info => "Info",
        LogLevel::Debug => "Debug",
        LogLevel::Firehose => "Firehose",
    }
}

/// The name of a preallocation mode as a string.
pub fn preallocation_str(mode: PreallocationMode) -> (name: &'static str)
    ensures
        name@ == preallocation_name(mode),
{
    match mode {
        PreallocationMode::Off => "None",
        PreallocationMode::Sparse => "Sparse",
        PreallocationMode::Full => "Full",
    }
}

/// Computes [`encryption_named`].
pub fn find_encryption(name: &Vec<char>) -> (mode: Option<EncryptionMode>)
    ensures
        mode == encryption_named(name@),
{
    if spells(name, "ClearPreferred") {
        Some(EncryptionMode::ClearPreferred)
    } else if spells(name, "EncryptionPreferred") {
        Some(EncryptionMode::EncryptionPreferred)
    } else if spells(name, "EncryptionRequired") {
        Some(EncryptionMode::EncryptionRequired)
    } else {
        None
    }
}

/// Computes [`level_named`].
pub fn find_level(name: &Vec<char>) -> (level: Option<LogLevel>)
    ensures
        level == level_named(name@),
{
    if spells(name, "Error") {
        Some(LogLevel::Error)
    } else if spells(name, "Info") {
        Some(LogLevel::Info)
    } else if spells(name, "Debug") {
        Some(LogLevel::Debug)
    } else if spells(name, "Firehose") {
        Some(LogLevel::Firehose)
    } else {
        None
    }
}

/// Computes [`preallocation_named`].
pub fn find_preallocation(name: &Vec<char>) -> (mode: Option<PreallocationMode>)
    ensures
        mode == preallocation_named(name@),
{
    if spells(name, "None") {
        Some(PreallocationMode::Off)
    } else if spells(name, "Sparse") {
        Some(PreallocationMode::Sparse)
    } else if spells(name, "Full") {
        Some(PreallocationMode::Full)
    } else {
        None
    }
}

/// Writes the string `text` between quotes at the end of `out`.
fn write_quoted_str(out: &mut Vec<char>, text: &str)
    ensures
        final(out)@ == old(out)@ + quoted(text@),
{
    let chars = chars_of(text);
    write_quoted(out, &chars);
}

/// Writes a list of addresses at the end of `out`.
fn write_addresses(out: &mut Vec<char>, addresses: &Vec<IpAddress>)
    ensures
        final(out)@ == old(out)@ + list_text(
            addresses@.map_values(|address: IpAddress| ip_text(address)),
        ),
{
    let mut items: Vec<Vec<char>> = Vec::new();
    let mut i: usize = 0;
    while i < addresses.len()
        invariant
            i <= addresses.len(),
            views(items@) == addresses@.subrange(0, i as int).map_values(
                |address: IpAddress| ip_text(address),
            ),
        decreases addresses.len() - i,
    {
        let ghost before = items@;
        let ghost done = addresses@.subrange(0, i as int);
        items.push(write_ip(addresses[i]));
        assert(views(items@) =~= views(before).push(ip_text(addresses@[i as int])));
        assert(addresses@.subrange(0, i + 1) =~= done.push(addresses@[i as int]));
        assert(done.push(addresses@[i as int]).map_values(|address: IpAddress| ip_text(address))
            =~= done.map_values(|address: IpAddress| ip_text(address)).push(
            ip_text(addresses@[i as int]),
        ));
        i += 1;
    }
    assert(addresses@.subrange(0, addresses.len() as int) =~= addresses@);
    write_list(out, &items);
}

/// Writes a list of texts at the end of `out`.
fn write_texts(out: &mut Vec<char>, texts: &Vec<String>)
    ensures
        final(out)@ == old(out)@ + list_text(texts_view(texts@)),
{
    let mut items: Vec<Vec<char>> = Vec::new();
    let mut i: usize = 0;
    while i < texts.len()
        invariant
            i <= texts.len(),
            views(items@) == texts_view(texts@.subrange(0, i as int)),
        decreases texts.len() - i,
    {
        let ghost before = items@;
        let ghost done = texts@.subrange(0, i as int);
        items.push(chars_of(texts[i].as_str()));
        assert(views(items@) =~= views(before).push(texts@[i as int]@));
        assert(texts@.subrange(0, i + 1) =~= done.push(texts@[i as int]));
        assert(texts_view(done.push(texts@[i as int])) =~= texts_view(done).push(
            texts@[i as int]@,
        ));
        i += 1;
    }
    assert(texts@.subrange(0, texts.len() as int) =~= texts@);
    write_list(out, &items);
}

/// Writes the text of a value at the end of `out`.
pub fn write_value(out: &mut Vec<char>, value: &Value)
    ensures
        final(out)@ == old(out)@ + value_text(value@),
{
    match value {
        Value::Flag(flag) => {
            if *flag {
                append_str(out, "true");
            } else {
                append_str(out, "false");
            }
        },
        Value::Count(count) => append_chars(out, &write_number(*count, 10)),
        Value::Text(text) => write_quoted_str(out, text.as_str()),
        Value::Path(path) => match path {
            Some(text) => write_quoted_str(out, text.as_str()),
            None => {
                assert(out@ =~= old(out)@ + Seq::<char>::empty());
            },
        },
        Value::Encryption(mode) => write_quoted_str(out, encryption_str(*mode)),
        Value::Level(level) => write_quoted_str(out, level_str(*level)),
        Value::Preallocation(mode) => write_quoted_str(out, preallocation_str(*mode)),
        Value::Ratio(ratio) => append_chars(out, &write_thousandths(ratio.thousandths)),
        Value::Address(address) => write_quoted(out, &write_ip(*address)),
        Value::Address4(address) => write_quoted(out, &write_ipv4(*address)),
        Value::Address6(address) => write_quoted(out, &write_ipv6(*address)),
        Value::Addresses(addresses) => write_addresses(out, addresses),
        Value::Texts(texts) => write_texts(out, texts),
    }
}

/// The view of what reading a value came to.
pub open spec fn read_view(outcome: Result<Value, Fault>) -> Result<ValueView, FaultView> {
    match outcome {
        Ok(value) => Ok(value@),
        Err(fault) => Err(fault@),
    }
}

/// Computes [`count_read`].
pub fn read_count(raw: &Vec<char>, max: u32) -> (outcome: Result<Value, Fault>)
    ensures
        read_view(outcome) == count_read(raw@, max),
{
    if raw.len() > 0 && raw[0] == '-' {
        let rest = piece(raw, 1, raw.len());
        assert(rest@ =~= raw@.skip(1));
        match read_number(&rest, 10, max) {
            Reading::Malformed => Err(Fault::Invalid),
            _ => Err(Fault::OutOfRange),
        }
    } else {
        match read_number(raw, 10, max) {
            Reading::Number(count) => Ok(Value::Count(count)),
            Reading::TooLarge => Err(Fault::OutOfRange),
            Reading::Malformed => Err(Fault::Invalid),
        }
    }
}

/// Computes [`ratio_read`].
pub fn read_ratio(raw: &Vec<char>) -> (outcome: Result<Value, Fault>)
    ensures
        read_view(outcome) == ratio_read(raw@),
{
    if raw.len() > 0 && raw[0] == '-' {
        let rest = piece(raw, 1, raw.len());
        assert(rest@ =~= raw@.skip(1));
        match read_thousandths(&rest) {
            Reading::Malformed => Err(Fault::Invalid),
            _ => Err(Fault::OutOfRange),
        }
    } else {
        match read_thousandths(raw) {
            Reading::Number(thousandths) => Ok(Value::Ratio(Ratio { thousandths })),
            Reading::TooLarge => Err(Fault::OutOfRange),
            Reading::Malformed => Err(Fault::Invalid),
        }
    }
}

/// The value of a URL, given what the URL parser made of its text: the
/// canonical form, or a fault where it made nothing of it.
pub fn url_value(canonical: Option<String>) -> (outcome: Result<Value, Fault>)
    ensures
        read_view(outcome) == match text_view(canonical) {
            Some(url) => Ok::<ValueView, FaultView>(ValueView::Text(url)),
            None => Err::<ValueView, FaultView>(FaultView::Invalid),
        },
{
    match canonical {
        Some(url) => Ok(Value::Text(url)),
        None => Err(Fault::Invalid),
    }
}

/// Computes [`quoted_read`].
pub fn read_quoted_value(kind: Kind, text: Vec<char>) -> (outcome: Result<Value, Fault>)
    ensures
        read_view(outcome) == quoted_read(kind, text@),
{
    match kind {
        Kind::Text => Ok(Value::Text(text_of(&text))),
        Kind::Path => Ok(Value::Path(Some(text_of(&text)))),
        Kind::Url => url_value(canonical_url(text_of(&text).as_str())),
        Kind::Encryption => match find_encryption(&text) {
            Some(mode) => Ok(Value::Encryption(mode)),
            None => Err(Fault::UnknownVariant(text_of(&text))),
        },
        Kind::Level => match find_level(&text) {
            Some(level) => Ok(Value::Level(level)),
            None => Err(Fault::UnknownVariant(text_of(&text))),
        },
        Kind::Preallocation => match find_preallocation(&text) {
            Some(mode) => Ok(Value::Preallocation(mode)),
            None => Err(Fault::UnknownVariant(text_of(&text))),
        },
        Kind::Address => match parse_ip(&text) {
            Some(address) => Ok(Value::Address(address)),
            None => Err(Fault::Invalid),
        },
        Kind::Address4 => match parse_ipv4(&text) {
            Some(address) => Ok(Value::Address4(address)),
            None => Err(Fault::Invalid),
        },
        Kind::Address6 => match parse_ipv6(&text) {
            Some(address) => Ok(Value::Address6(address)),
            None => Err(Fault::Invalid),
        },
        _ => Err(Fault::Invalid),
    }
}

/// The texts with the given characters.
fn texts_of(items: &Vec<Vec<char>>) -> (texts: Vec<String>)
    ensures
        texts_view(texts@) == views(items@),
{
    let mut texts: Vec<String> = Vec::new();
    let mut i: usize = 0;
    while i < items.len()
        invariant
            i <= items.len(),
            texts_view(texts@) == views(items@).subrange(0, i as int),
        decreases items.len() - i,
    {
        let ghost before = texts@;
        texts.push(text_of(&items[i]));
        assert(texts_view(texts@) =~= texts_view(before).push(items@[i as int]@));
        assert(views(items@).subrange(0, i + 1) =~= views(items@).subrange(0, i as int).push(
            items@[i as int]@,
        ));
        i += 1;
    }
    assert(views(items@).subrange(0, items.len() as int) =~= views(items@));
    texts
}

/// Computes [`list_read`].
pub fn read_list_value(kind: Kind, items: &Vec<Vec<char>>) -> (outcome: Result<Value, Fault>)
    ensures
        read_view(outcome) == list_read(kind, views(items@)),
{
    match kind {
        Kind::Addresses => match read_addresses(items) {
            Some(addresses) => Ok(Value::Addresses(addresses)),
            None => Err(Fault::Invalid),
        },
        Kind::Texts => Ok(Value::Texts(texts_of(items))),
        _ => Err(Fault::Invalid),
    }
}

/// Computes [`value_read`].
pub fn read_value(kind: Kind, raw: &Vec<char>) -> (outcome: Result<Value, Fault>)
    ensures
        read_view(outcome) == value_read(kind, raw@),
{
    match kind {
        Kind::Flag => if spells(raw, "true") {
            Ok(Value::Flag(true))
        } else if spells(raw, "false") {
            Ok(Value::Flag(false))
        } else {
            Err(Fault::Invalid)
        },
        Kind::Count(max) => read_count(raw, max),
        Kind::Ratio => read_ratio(raw),
        Kind::Addresses | Kind::Texts => match read_list(raw) {
            Some(items) => read_list_value(kind, &items),
            None => Err(Fault::Invalid),
        },
        _ => match read_quoted(raw) {
            Some(text) => read_quoted_value(kind, text),
            None => Err(Fault::Invalid),
        },
    }
}

} // verus!
