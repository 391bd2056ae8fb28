//! Resolution of a model name that a user typed to a model of the engine.
//!
//! The name is normalized, then sought twice: first as the exact name of a
//! symbol of the engine, then loosely among the labels of the catalog. The
//! first match wins.

use crate::catalog::{
    catalog_entries, descriptors_view, marker, table_view, DescriptorView, EngineSymbol,
    ModelCatalog, ModelDescriptor, SymbolView,
};
use crate::text::{
    chars_of, contains_chars, contains_text, lowercase, push_char, same_chars, to_lowercase,
    to_uppercase, uppercase,
};
use vstd::prelude::*;
use vstd::string::StringExecFns;
use vstd::utf8::is_ascii_chars;

verus! {

/// How a name was resolved, and where the match stands.
#[derive(Clone, Copy, Debug, PartialEq, Eq, Structural)]
pub enum MatchKind {
    /// The symbol at this index of the engine's table has exactly the
    /// expected name.
    Exact { symbol: usize },
    /// The entry at this index of the catalog has a label that matches
    /// loosely.
    Fuzzy { entry: usize },
}

/// A resolved model: the identifier to hand to the engine, and how it was
/// found.
#[derive(Clone, Copy, Debug, PartialEq, Eq, Structural)]
pub struct Resolved {
    pub id: i32,
    pub kind: MatchKind,
}

/// Why a name was not resolved.
#[derive(Debug)]
pub enum ResolveError {
    /// Neither a symbol nor a label matches. Holds the name as it was typed.
    UnknownModel { name: String },
}

/// A separator between the words of a model name.
pub open spec fn is_separator(c: char) -> bool {
    c == ' ' || c == '-'
}

/// A text with each space and each hyphen replaced by an underscore.
pub open spec fn replace_separators(s: Seq<char>) -> Seq<char> {
    Seq::new(
        s.len(),
        |i: int|
            if is_separator(s[i]) {
                '_'
            } else {
                s[i]
            },
    )
}

/// The normal form of a model name: lowercase, with underscores for
/// separators.
pub open spec fn normalized(input: Seq<char>) -> Seq<char> {
    replace_separators(lowercase(input))
}

/// The name of the symbol that stands for a model name exactly: the marker,
/// then the normal form in uppercase.
pub open spec fn expected_symbol(input: Seq<char>) -> Seq<char> {
    marker() + uppercase(normalized(input))
}

/// The symbol has the wanted name and an integer value.
pub open spec fn is_exact(symbol: SymbolView, wanted: Seq<char>) -> bool {
    symbol.name == wanted && symbol.value is Some
}

/// The label matches the normalized name loosely: they are equal, or one
/// stands inside the other.
pub open spec fn is_fuzzy(label: Seq<char>, wanted: Seq<char>) -> bool {
    wanted == label || contains_text(wanted, label) || contains_text(label, wanted)
}

/// The index of the first symbol of the table with the wanted name and an
/// integer value.
pub open spec fn first_exact(table: Seq<SymbolView>, wanted: Seq<char>) -> Option<int>
    decreases table.len(),
{
    if table.len() == 0 {
        None
    } else {
        match first_exact(table.drop_last(), wanted) {
            Some(i) => Some(i),
            None => if is_exact(table.last(), wanted) {
                Some(table.len() - 1)
            } else {
                None
            },
        }
    }
}

/// The index of the first entry whose label matches the wanted name loosely.
pub open spec fn first_fuzzy(entries: Seq<DescriptorView>, wanted: Seq<char>) -> Option<int>
    decreases entries.len(),
{
    if entries.len() == 0 {
        None
    } else {
        match first_fuzzy(entries.drop_last(), wanted) {
            Some(i) => Some(i),
            None => if is_fuzzy(entries.last().label(), wanted) {
                Some(entries.len() - 1)
            } else {
                None
            },
        }
    }
}

/// The model that a name resolves to against a symbol table: the first exact
/// match where there is one, else the first loose match among the catalog's
/// entries, else nothing.
pub open spec fn resolution(input: Seq<char>, table: Seq<SymbolView>) -> Option<Resolved> {
    match first_exact(table, expected_symbol(input)) {
        Some(i) => Some(Resolved { id: table[i].value->0, kind: MatchKind::Exact { symbol: i as usize } }),
        None => {
            let entries = catalog_entries(table);
            match first_fuzzy(entries, normalized(input)) {
                Some(j) => Some(
                    Resolved { id: entries[j].id, kind: MatchKind::Fuzzy { entry: j as usize } },
                ),
                None => None,
            }
        },
    }
}

/// Where `first_exact` finds a symbol, it is an exact match and no symbol
/// before it is; where it finds none, no symbol is an exact match.
pub proof fn lemma_first_exact(table: Seq<SymbolView>, wanted: Seq<char>)
    ensures
        match first_exact(table, wanted) {
            Some(i) => {
                &&& 0 <= i < table.len()
                &&& is_exact(table[i], wanted)
                &&& forall|j: int| 0 <= j < i ==> !is_exact(#[trigger] table[j], wanted)
            },
            None => forall|j: int| 0 <= j < table.len() ==> !is_exact(#[trigger] table[j], wanted),
        },
    decreases table.len(),
{
    if table.len() > 0 {
        let before = table.drop_last();
        lemma_first_exact(before, wanted);
        assert forall|j: int| 0 <= j < before.len() implies before[j] == table[j] by {}
        match first_exact(before, wanted) {
            Some(i) => {
                assert(before[i] == table[i]);
                assert forall|j: int| 0 <= j < i implies !is_exact(#[trigger] table[j], wanted) by {
                    assert(before[j] == table[j]);
                }
            },
            None => {
                assert forall|j: int| 0 <= j < table.len() - 1 implies !is_exact(
                    #[trigger] table[j],
                    wanted,
                ) by {
                    assert(before[j] == table[j]);
                }
            },
        }
    }
}

/// Where `first_fuzzy` finds an entry, its label matches and no label before
/// it does; where it finds none, no label matches.
pub proof fn lemma_first_fuzzy(entries: Seq<DescriptorView>, wanted: Seq<char>)
    ensures
        match first_fuzzy(entries, wanted) {
            Some(i) => {
                &&& 0 <= i < entries.len()
                &&& is_fuzzy(entries[i].label(), wanted)
                &&& forall|j: int| 0 <= j < i ==> !is_fuzzy((#[trigger] entries[j]).label(), wanted)
            },
            None => forall|j: int|
                0 <= j < entries.len() ==> !is_fuzzy((#[trigger] entries[j]).label(), wanted),
        },
    decreases entries.len(),
{
    if entries.len() > 0 {
        let before = entries.drop_last();
        lemma_first_fuzzy(before, wanted);
        assert forall|j: int| 0 <= j < before.len() implies before[j] == entries[j] by {}
        match first_fuzzy(before, wanted) {
            Some(i) => {
                assert(before[i] == entries[i]);
                assert forall|j: int| 0 <= j < i implies !is_fuzzy(
                    (#[trigger] entries[j]).label(),
                    wanted,
                ) by {
                    assert(before[j] == entries[j]);
                }
            },
            None => {
                assert forall|j: int| 0 <= j < entries.len() - 1 implies !is_fuzzy(
                    (#[trigger] entries[j]).label(),
                    wanted,
                ) by {
                    assert(before[j] == entries[j]);
                }
            },
        }
    }
}

/// An index with an exact match and none before it is what `first_exact`
/// finds.
pub proof fn lemma_first_exact_is(table: Seq<SymbolView>, wanted: Seq<char>, i: int)
    requires
        0 <= i < table.len(),
        is_exact(table[i], wanted),
        forall|j: int| 0 <= j < i ==> !is_exact(#[trigger] table[j], wanted),
    ensures
        first_exact(table, wanted) == Some(i),
{
    lemma_first_exact(table, wanted);
}

/// An index with a loose match and none before it is what `first_fuzzy`
/// finds.
pub proof fn lemma_first_fuzzy_is(entries: Seq<DescriptorView>, wanted: Seq<char>, i: int)
    requires
        0 <= i < entries.len(),
        is_fuzzy(entries[i].label(), wanted),
        forall|j: int| 0 <= j < i ==> !is_fuzzy((#[trigger] entries[j]).label(), wanted),
    ensures
        first_fuzzy(entries, wanted) == Some(i),
{
    lemma_first_fuzzy(entries, wanted);
}

/// An exact match has priority: where some symbol of the table has exactly
/// the expected name and an integer value, the name resolves to the first such
/// symbol and to its value, whatever labels the catalog holds.
pub proof fn lemma_exact_match_wins(input: Seq<char>, table: Seq<SymbolView>, i: int)
    requires
        table.len() <= usize::MAX,
        0 <= i < table.len(),
        is_exact(table[i], expected_symbol(input)),
    ensures
        resolution(input, table) matches Some(found) && found.kind matches MatchKind::Exact {
            symbol,
        } && {
            &&& symbol <= i
            &&& is_exact(table[symbol as int], expected_symbol(input))
            &&& found.id == table[symbol as int].value->0
            &&& forall|j: int|
                0 <= j < symbol ==> !is_exact(#[trigger] table[j], expected_symbol(input))
        },
{
    lemma_first_exact(table, expected_symbol(input));
}

/// Without an exact match the catalog decides: the name resolves to the
/// first entry whose label matches loosely, and to nothing where none does.
pub proof fn lemma_fuzzy_match_is_first(input: Seq<char>, table: Seq<SymbolView>)
    requires
        table.len() <= usize::MAX,
        forall|i: int|
            0 <= i < table.len() ==> !is_exact(#[trigger] table[i], expected_symbol(input)),
    ensures
        match resolution(input, table) {
            Some(found) => found.kind matches MatchKind::Fuzzy { entry } && {
                let entries = catalog_entries(table);
                &&& entry < entries.len()
                &&& found.id == entries[entry as int].id
                &&& is_fuzzy(entries[entry as int].label(), normalized(input))
                &&& forall|j: int|
                    0 <= j < entry ==> !is_fuzzy((#[trigger] entries[j]).label(), normalized(input))
            },
            None => forall|j: int|
                0 <= j < catalog_entries(table).len() ==> !is_fuzzy(
                    (#[trigger] catalog_entries(table)[j]).label(),
                    normalized(input),
                ),
        },
{
    lemma_first_exact(table, expected_symbol(input));
    lemma_first_fuzzy(catalog_entries(table), normalized(input));
    crate::catalog::lemma_entries_bounded(table);
}

/// Normalizing a second time changes nothing, for every name whose normal
/// form lowercasing leaves as it is.
pub proof fn lemma_normalized_idempotent(input: Seq<char>)
    requires
        lowercase(normalized(input)) == normalized(input),
    ensures
        normalized(normalized(input)) == normalized(input),
{
    let once = normalized(input);
    assert(replace_separators(once) =~= once);
}

/// The normal form of a name of ASCII characters is ASCII, and lowercasing
/// leaves it as it is: normalizing such a name a second time changes nothing.
pub proof fn lemma_normalized_idempotent_ascii(input: Seq<char>)
    requires
        is_ascii_chars(input),
    ensures
        is_ascii_chars(normalized(input)),
        lowercase(normalized(input)) == normalized(input),
        normalized(normalized(input)) == normalized(input),
{
    let once = normalized(input);
    assert(is_ascii_chars(once));
    assert(lowercase(once) =~= once);
    lemma_normalized_idempotent(input);
}

/// A name and its normal form resolve alike against every table, for every
/// name whose normal form lowercasing leaves as it is: the same symbol is
/// sought, the same labels are compared, and the same model or none is found.
pub proof fn lemma_normal_form_resolves_alike(input: Seq<char>, table: Seq<SymbolView>)
    requires
        lowercase(normalized(input)) == normalized(input),
    ensures
        expected_symbol(normalized(input)) == expected_symbol(input),
        resolution(normalized(input), table) == resolution(input, table),
{
    lemma_normalized_idempotent(input);
}

/// The normal form of a model name.
pub fn normalize(input: &str) -> (r: String)
    ensures
        r@ == normalized(input@),
{
    let lowered = chars_of(to_lowercase(input).as_str());
    let mut r = String::new();
    let mut i: usize = 0;
    while i < lowered.len()
        invariant
            i <= lowered.len(),
            r@ == replace_separators(lowered@).take(i as int),
        decreases lowered.len() - i,
    {
        let c = lowered[i];
        if c == ' ' || c == '-' {
            push_char(&mut r, '_');
        } else {
            push_char(&mut r, c);
        }
        i += 1;
        assert(replace_separators(lowered@).take(i as int) == replace_separators(lowered@).take(
            i as int - 1,
        ).push(replace_separators(lowered@)[i as int - 1]));
    }
    assert(replace_separators(lowered@).take(lowered.len() as int) == replace_separators(
        lowered@,
    ));
    r
}

/// The name of the symbol that stands for a model name exactly.
pub fn expected_symbol_name(input: &str) -> (r: String)
    ensures
        r@ == expected_symbol(input@),
{
    let wanted = normalize(input);
    let upper = to_uppercase(wanted.as_str());
    let mut r = String::from_str("MODEL_");
    r.append(upper.as_str());
    r
}

/// The first symbol of the table with the wanted name and an integer value.
pub fn find_exact(symbols: &Vec<EngineSymbol>, wanted: &str) -> (r: Option<usize>)
    ensures
        match r {
            Some(i) => {
                &&& i < symbols.len()
                &&& symbols@[i as int].value is Some
                &&& first_exact(table_view(symbols@), wanted@) == Some(i as int)
            },
            None => first_exact(table_view(symbols@), wanted@) is None,
        },
{
    let ghost table = table_view(symbols@);
    let wanted_chars = chars_of(wanted);
    let mut i: usize = 0;
    while i < symbols.len()
        invariant
            i <= symbols.len(),
            table == table_view(symbols@),
            wanted_chars@ == wanted@,
            forall|j: int| 0 <= j < i ==> !is_exact(#[trigger] table[j], wanted@),
        decreases symbols.len() - i,
    {
        let symbol = &symbols[i];
        assert(table[i as int] == symbol@);
        if symbol.value.is_some() && same_chars(&chars_of(symbol.name.as_str()), &wanted_chars) {
            proof {
                lemma_first_exact_is(table, wanted@, i as int);
            }
            return Some(i);
        }
        i += 1;
    }
    proof {
        lemma_first_exact(table, wanted@);
    }
    None
}

/// The first entry whose label matches the wanted name loosely.
pub fn find_fuzzy(entries: &Vec<ModelDescriptor>, wanted: &str) -> (r: Option<usize>)
    ensures
        match r {
            Some(i) => {
                &&& i < entries.len()
                &&& first_fuzzy(descriptors_view(entries@), wanted@) == Some(i as int)
            },
            None => first_fuzzy(descriptors_view(entries@), wanted@) is None,
        },
{
    let ghost all = descriptors_view(entries@);
    let wanted_chars = chars_of(wanted);
    let mut i: usize = 0;
    while i < entries.len()
        invariant
            i <= entries.len(),
            all == descriptors_view(entries@),
            wanted_chars@ == wanted@,
            forall|j: int| 0 <= j < i ==> !is_fuzzy((#[trigger] all[j]).label(), wanted@),
        decreases entries.len() - i,
    {
        let entry = &entries[i];
        assert(all[i as int] == entry@);
        let label = chars_of(entry.relative_label().as_str());
        if same_chars(&wanted_chars, &label) || contains_chars(&wanted_chars, &label)
            || contains_chars(&label, &wanted_chars) {
            proof {
                lemma_first_fuzzy_is(all, wanted@, i as int);
            }
            return Some(i);
        }
        i += 1;
    }
    proof {
        lemma_first_fuzzy(all, wanted@);
    }
    None
}

/// Resolves a model name against a catalog: to the first symbol with exactly
/// the expected name, else to the first entry with a loosely matching label.
/// A name that matches neither is returned in the error as it was typed.
pub fn resolve(input: &str, catalog: &ModelCatalog) -> (r: Result<Resolved, ResolveError>)
    ensures
        match r {
            Ok(found) => resolution(input@, catalog@) == Some(found),
            Err(ResolveError::UnknownModel { name }) => {
                &&& resolution(input@, catalog@) is None
                &&& name@ == input@
            },
        },
{
    let symbols = catalog.symbols();
    let expected = expected_symbol_name(input);
    match find_exact(symbols, expected.as_str()) {
        Some(i) => {
            assert(catalog@[i as int] == symbols@[i as int]@);
            match symbols[i].value {
                Some(id) => Ok(Resolved { id, kind: MatchKind::Exact { symbol: i } }),
                None => Err(ResolveError::UnknownModel { name: String::from_str(input) }),
            }
        },
        None => {
            let entries = catalog.descriptors();
            let wanted = normalize(input);
            match find_fuzzy(entries, wanted.as_str()) {
                Some(j) => {
                    assert(catalog_entries(catalog@)[j as int] == entries@[j as int]@);
                    Ok(Resolved { id: entries[j].id(), kind: MatchKind::Fuzzy { entry: j } })
                },
                None => Err(ResolveError::UnknownModel { name: String::from_str(input) }),
            }
        },
    }
}

impl ResolveError {
    /// The message of the error: that the model is unknown, and its name.
    pub fn message(&self) -> (r: String)
        ensures
            match self {
                ResolveError::UnknownModel { name } => r@ == "Unknown model: "@ + name@,
            },
    {
        match self {
            ResolveError::UnknownModel { name } => {
                let mut r = String::from_str("Unknown model: ");
                r.append(name.as_str());
                r
            },
        }
    }
}

} // verus!
