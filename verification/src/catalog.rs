//! The model catalog: which of the engine's symbols name a model, to which
//! family each belongs, and how the families are listed.

use crate::text::{
    chars_of, lowercase, push_chars, skip_chars, skip_leading, starts_with_chars, to_lowercase,
    trim_leading,
};
use vstd::prelude::*;
use vstd::string::StringExecFns;

verus! {

/// One of the four families of models that the engine ships.
#[derive(Clone, Copy, Debug, PartialEq, Eq, Structural)]
pub enum ModelFamily {
    RealCugan,
    RealEsrgan,
    RealSr,
    Waifu2x,
}

/// One entry of the engine's symbol table: a name, and its value where the
/// value is an integer.
#[derive(Debug)]
pub struct EngineSymbol {
    pub name: String,
    pub value: Option<i32>,
}

/// An engine symbol as plain values.
pub struct SymbolView {
    pub name: Seq<char>,
    pub value: Option<i32>,
}

/// A model of the catalog: the engine's identifier, the lowercase name, and
/// the family that the name begins with.
#[derive(Debug)]
pub struct ModelDescriptor {
    id: i32,
    canonical_name: String,
    family: ModelFamily,
}

/// A model descriptor as plain values.
pub struct DescriptorView {
    pub id: i32,
    pub canonical_name: Seq<char>,
    pub family: ModelFamily,
}

/// The symbols of one engine, and the models among them in the order in which
/// the engine enumerated them.
pub struct ModelCatalog {
    symbols: Vec<EngineSymbol>,
    entries: Vec<ModelDescriptor>,
}

/// The token that every model symbol begins with.
pub open spec fn marker() -> Seq<char> {
    "MODEL_"@
}

/// The name under which a family is listed.
pub open spec fn family_name(family: ModelFamily) -> Seq<char> {
    match family {
        ModelFamily::RealCugan => "REALCUGAN"@,
        ModelFamily::RealEsrgan => "REALESRGAN"@,
        ModelFamily::RealSr => "REALSR"@,
        ModelFamily::Waifu2x => "WAIFU2X"@,
    }
}

/// What the name of a model of the family begins with.
pub open spec fn family_prefix(family: ModelFamily) -> Seq<char> {
    match family {
        ModelFamily::RealCugan => "realcugan"@,
        ModelFamily::RealEsrgan => "realesrgan"@,
        ModelFamily::RealSr => "realsr"@,
        ModelFamily::Waifu2x => "waifu2x"@,
    }
}

/// The family of a model name: the first, in the fixed order of the four
/// families, whose prefix the name begins with.
pub open spec fn classify(name: Seq<char>) -> Option<ModelFamily> {
    if family_prefix(ModelFamily::RealCugan).is_prefix_of(name) {
        Some(ModelFamily::RealCugan)
    } else if family_prefix(ModelFamily::RealEsrgan).is_prefix_of(name) {
        Some(ModelFamily::RealEsrgan)
    } else if family_prefix(ModelFamily::RealSr).is_prefix_of(name) {
        Some(ModelFamily::RealSr)
    } else if family_prefix(ModelFamily::Waifu2x).is_prefix_of(name) {
        Some(ModelFamily::Waifu2x)
    } else {
        None
    }
}

/// The label of a model within its family: the name without the family's
/// prefix and without the underscores that follow it.
pub open spec fn relative_label(name: Seq<char>, family: ModelFamily) -> Seq<char> {
    trim_leading(name.skip(family_prefix(family).len() as int), '_')
}

/// The model name that a symbol stands for: what follows the marker, in
/// lowercase.
pub open spec fn model_name(symbol_name: Seq<char>) -> Seq<char> {
    lowercase(symbol_name.skip(marker().len() as int))
}

/// The descriptor of a symbol, where the symbol names a model: it begins with
/// the marker, its value is an integer, its name begins with the prefix of a
/// family, and something is left of the name after that prefix.
pub open spec fn describe(symbol: SymbolView) -> Option<DescriptorView> {
    if marker().is_prefix_of(symbol.name) && symbol.value is Some {
        let name = model_name(symbol.name);
        match classify(name) {
            Some(family) => if relative_label(name, family).len() > 0 {
                Some(DescriptorView { id: symbol.value->0, canonical_name: name, family })
            } else {
                None
            },
            None => None,
        }
    } else {
        None
    }
}

/// The descriptors of the models of a symbol table, in the table's order.
pub open spec fn catalog_entries(table: Seq<SymbolView>) -> Seq<DescriptorView>
    decreases table.len(),
{
    if table.len() == 0 {
        Seq::empty()
    } else {
        let before = catalog_entries(table.drop_last());
        match describe(table.last()) {
            Some(descriptor) => before.push(descriptor),
            None => before,
        }
    }
}

/// A catalog has at most as many entries as its table has symbols.
pub proof fn lemma_entries_bounded(table: Seq<SymbolView>)
    ensures
        catalog_entries(table).len() <= table.len(),
    decreases table.len(),
{
    if table.len() > 0 {
        lemma_entries_bounded(table.drop_last());
    }
}

/// Every entry of a catalog describes a symbol of its table, and keeps the
/// symbol's integer value as its identifier.
pub proof fn lemma_entry_has_symbol(table: Seq<SymbolView>, k: int)
    requires
        0 <= k < catalog_entries(table).len(),
    ensures
        catalog_entries(table)[k].wf(),
        exists|i: int|
            0 <= i < table.len() && describe(#[trigger] table[i]) == Some(
                catalog_entries(table)[k],
            ),
    decreases table.len(),
{
    if table.len() > 0 {
        let before = table.drop_last();
        if k < catalog_entries(before).len() {
            lemma_entry_has_symbol(before, k);
            let i = choose|i: int|
                0 <= i < before.len() && describe(#[trigger] before[i]) == Some(
                    catalog_entries(before)[k],
                );
            assert(before[i] == table[i]);
        } else {
            assert(describe(table[table.len() - 1]) == Some(catalog_entries(table)[k]));
        }
    }
}

/// Every symbol of a table that names a model has an entry in the catalog.
pub proof fn lemma_symbol_has_entry(table: Seq<SymbolView>, i: int)
    requires
        0 <= i < table.len(),
        describe(table[i]) is Some,
    ensures
        exists|k: int|
            0 <= k < catalog_entries(table).len() && #[trigger] catalog_entries(table)[k]
                == describe(table[i])->0,
    decreases table.len(),
{
    let before = table.drop_last();
    if i < table.len() - 1 {
        lemma_symbol_has_entry(before, i);
        assert(before[i] == table[i]);
        let k = choose|k: int|
            0 <= k < catalog_entries(before).len() && #[trigger] catalog_entries(before)[k]
                == describe(before[i])->0;
        assert(catalog_entries(table)[k] == catalog_entries(before)[k]);
    } else {
        let k = catalog_entries(table).len() - 1;
        assert(catalog_entries(table)[k] == describe(table[i])->0);
    }
}

/// Where the model symbols of a table have different values, the entries of
/// its catalog have different identifiers.
pub proof fn lemma_ids_are_unique(table: Seq<SymbolView>, first: int, second: int)
    requires
        forall|i: int, j: int|
            0 <= i < j < table.len() && describe(#[trigger] table[i]) is Some && describe(
                #[trigger] table[j],
            ) is Some ==> table[i].value != table[j].value,
        0 <= first < second < catalog_entries(table).len(),
    ensures
        catalog_entries(table)[first].id != catalog_entries(table)[second].id,
    decreases table.len(),
{
    if table.len() > 0 {
        let before = table.drop_last();
        assert forall|i: int| 0 <= i < before.len() implies before[i] == table[i] by {}
        if second < catalog_entries(before).len() {
            lemma_ids_are_unique(before, first, second);
        } else {
            lemma_entry_has_symbol(before, first);
            let i = choose|i: int|
                0 <= i < before.len() && describe(#[trigger] before[i]) == Some(
                    catalog_entries(before)[first],
                );
            assert(before[i] == table[i]);
            assert(describe(table[table.len() - 1]) == Some(catalog_entries(table)[second]));
            assert(table[i].value != table[table.len() - 1].value);
        }
    }
}

/// The listing is a function of the symbol table: two catalogs of one table
/// hold the same entries and are listed letter for letter alike.
pub proof fn lemma_listing_is_stable(first: Seq<SymbolView>, second: Seq<SymbolView>)
    requires
        first =~= second,
    ensures
        catalog_entries(first) == catalog_entries(second),
        listing(catalog_entries(first)) == listing(catalog_entries(second)),
{
}

/// One line of a family's section.
pub open spec fn bullet(label: Seq<char>) -> Seq<char> {
    "  - "@ + label + "\n"@
}

/// The lines of a family's section: one for each entry of the family, in the
/// order of the entries.
pub open spec fn section_lines(entries: Seq<DescriptorView>, family: ModelFamily) -> Seq<char>
    decreases entries.len(),
{
    if entries.len() == 0 {
        Seq::empty()
    } else {
        let before = section_lines(entries.drop_last(), family);
        if entries.last().family == family {
            before + bullet(entries.last().label())
        } else {
            before
        }
    }
}

/// Some entry belongs to the family.
pub open spec fn has_family(entries: Seq<DescriptorView>, family: ModelFamily) -> bool {
    exists|i: int| 0 <= i < entries.len() && (#[trigger] entries[i]).family == family
}

/// The section of a family: its name, its lines and an empty line; nothing
/// where no entry belongs to the family.
pub open spec fn section(entries: Seq<DescriptorView>, family: ModelFamily) -> Seq<char> {
    if has_family(entries, family) {
        family_name(family) + ":\n"@ + section_lines(entries, family) + "\n"@
    } else {
        Seq::empty()
    }
}

/// The listing of a catalog: the sections of the four families in their fixed
/// order.
pub open spec fn listing(entries: Seq<DescriptorView>) -> Seq<char> {
    section(entries, ModelFamily::RealCugan) + section(entries, ModelFamily::RealEsrgan) + section(
        entries,
        ModelFamily::RealSr,
    ) + section(entries, ModelFamily::Waifu2x)
}

/// The symbols of a table as plain values.
pub open spec fn table_view(symbols: Seq<EngineSymbol>) -> Seq<SymbolView> {
    Seq::new(symbols.len(), |i: int| symbols[i]@)
}

/// The descriptors of a list as plain values.
pub open spec fn descriptors_view(entries: Seq<ModelDescriptor>) -> Seq<DescriptorView> {
    Seq::new(entries.len(), |i: int| entries[i]@)
}

impl View for EngineSymbol {
    type V = SymbolView;

    open spec fn view(&self) -> SymbolView {
        SymbolView { name: self.name@, value: self.value }
    }
}

impl View for ModelDescriptor {
    type V = DescriptorView;

    closed spec fn view(&self) -> DescriptorView {
        DescriptorView { id: self.id, canonical_name: self.canonical_name@, family: self.family }
    }
}

impl DescriptorView {
    /// The label of the model within its family.
    pub open spec fn label(self) -> Seq<char> {
        relative_label(self.canonical_name, self.family)
    }

    /// The name begins with the family's prefix and the label is not empty.
    pub open spec fn wf(self) -> bool {
        &&& classify(self.canonical_name) == Some(self.family)
        &&& self.label().len() > 0
    }
}

impl ModelFamily {
    /// The name under which the family is listed.
    pub fn name(self) -> (r: &'static str)
        ensures
            r@ == family_name(self),
    {
        match self {
            ModelFamily::RealCugan => "REALCUGAN",
            ModelFamily::RealEsrgan => "REALESRGAN",
            ModelFamily::RealSr => "REALSR",
            ModelFamily::Waifu2x => "WAIFU2X",
        }
    }

    /// What the name of a model of the family begins with.
    pub fn prefix(self) -> (r: &'static str)
        ensures
            r@ == family_prefix(self),
    {
        match self {
            ModelFamily::RealCugan => "realcugan",
            ModelFamily::RealEsrgan => "realesrgan",
            ModelFamily::RealSr => "realsr",
            ModelFamily::Waifu2x => "waifu2x",
        }
    }
}

/// The family of a model name, if it has one.
pub fn classify_chars(name: &Vec<char>) -> (r: Option<ModelFamily>)
    ensures
        r == classify(name@),
{
    if starts_with_chars(name, &chars_of(ModelFamily::RealCugan.prefix())) {
        Some(ModelFamily::RealCugan)
    } else if starts_with_chars(name, &chars_of(ModelFamily::RealEsrgan.prefix())) {
        Some(ModelFamily::RealEsrgan)
    } else if starts_with_chars(name, &chars_of(ModelFamily::RealSr.prefix())) {
        Some(ModelFamily::RealSr)
    } else if starts_with_chars(name, &chars_of(ModelFamily::Waifu2x.prefix())) {
        Some(ModelFamily::Waifu2x)
    } else {
        None
    }
}

/// The label of a model name within a family that it belongs to.
pub fn label_chars(name: &Vec<char>, family: ModelFamily) -> (r: Vec<char>)
    requires
        family_prefix(family).is_prefix_of(name@),
    ensures
        r@ == relative_label(name@, family),
{
    let prefix = chars_of(family.prefix());
    let rest = skip_chars(name, prefix.len());
    skip_leading(&rest, '_')
}

/// The descriptor of a symbol, where the symbol names a model.
pub fn describe_symbol(symbol: &EngineSymbol) -> (r: Option<ModelDescriptor>)
    ensures
        match r {
            Some(descriptor) => describe(symbol@) == Some(descriptor@),
            None => describe(symbol@) is None,
        },
{
    let id: i32 = match symbol.value {
        Some(value) => value,
        None => {
            return None;
        },
    };
    let symbol_chars = chars_of(symbol.name.as_str());
    let marker_chars = chars_of("MODEL_");
    if !starts_with_chars(&symbol_chars, &marker_chars) {
        return None;
    }
    let mut suffix = String::new();
    push_chars(&mut suffix, &skip_chars(&symbol_chars, marker_chars.len()));
    assert(suffix@ == symbol.name@.skip(marker().len() as int));
    let canonical_name = to_lowercase(suffix.as_str());
    let name_chars = chars_of(canonical_name.as_str());
    match classify_chars(&name_chars) {
        Some(family) => {
            let label = label_chars(&name_chars, family);
            if label.len() > 0 {
                Some(ModelDescriptor { id, canonical_name, family })
            } else {
                None
            }
        },
        None => None,
    }
}

impl ModelDescriptor {
    #[verifier::type_invariant]
    spec fn well_formed(&self) -> bool {
        self@.wf()
    }

    /// The identifier that the engine gave the model.
    pub fn id(&self) -> (r: i32)
        ensures
            r == self@.id,
    {
        self.id
    }

    /// The lowercase name of the model.
    pub fn canonical_name(&self) -> (r: &str)
        ensures
            r@ == self@.canonical_name,
    {
        self.canonical_name.as_str()
    }

    /// The family of the model.
    pub fn family(&self) -> (r: ModelFamily)
        ensures
            r == self@.family,
    {
        self.family
    }

    /// The label of the model within its family.
    pub fn relative_label(&self) -> (r: String)
        ensures
            r@ == self@.label(),
            self@.wf(),
    {
        proof {
            use_type_invariant(self);
        }
        let name_chars = chars_of(self.canonical_name.as_str());
        let label = label_chars(&name_chars, self.family);
        let mut r = String::new();
        push_chars(&mut r, &label);
        r
    }
}

impl Clone for EngineSymbol {
    fn clone(&self) -> (r: Self)
        ensures
            r@ == self@,
    {
        EngineSymbol { name: self.name.clone(), value: self.value }
    }
}

impl Clone for ModelDescriptor {
    fn clone(&self) -> (r: Self)
        ensures
            r@ == self@,
    {
        proof {
            use_type_invariant(self);
        }
        ModelDescriptor {
            id: self.id,
            canonical_name: self.canonical_name.clone(),
            family: self.family,
        }
    }
}

/// Appends the section of one family to `out`.
fn push_section(out: &mut String, entries: &Vec<ModelDescriptor>, family: ModelFamily)
    ensures
        final(out)@ == old(out)@ + section(descriptors_view(entries@), family),
{
    let ghost all = descriptors_view(entries@);
    let mut lines = String::new();
    let mut found = false;
    let mut i: usize = 0;
    while i < entries.len()
        invariant
            i <= entries.len(),
            all == descriptors_view(entries@),
            lines@ == section_lines(all.take(i as int), family),
            found == has_family(all.take(i as int), family),
        decreases entries.len() - i,
    {
        let ghost before = all.take(i as int);
        let ghost upto = all.take(i as int + 1);
        assert(upto.drop_last() == before);
        assert(upto.last() == entries@[i as int]@);
        let entry = &entries[i];
        if entry.family() == family {
            let label = entry.relative_label();
            lines.append("  - ");
            lines.append(label.as_str());
            lines.append("\n");
            assert(lines@ == section_lines(before, family) + bullet(upto.last().label()));
            found = true;
            assert(upto[i as int].family == family);
        } else {
            assert forall|j: int| 0 <= j < upto.len() && (#[trigger] upto[j]).family
                == family implies 0 <= j < before.len() && before[j].family == family by {
                assert(before[j] == upto[j]);
            }
            assert(has_family(before, family) ==> has_family(upto, family)) by {
                if has_family(before, family) {
                    let j = choose|j: int|
                        0 <= j < before.len() && (#[trigger] before[j]).family == family;
                    assert(upto[j] == before[j]);
                }
            }
        }
        i += 1;
    }
    assert(all.take(entries.len() as int) == all);
    if found {
        out.append(family.name());
        out.append(":\n");
        out.append(lines.as_str());
        out.append("\n");
        assert(out@ == old(out)@ + (family_name(family) + ":\n"@ + section_lines(all, family)
            + "\n"@));
    } else {
        assert(out@ == old(out)@ + Seq::<char>::empty());
    }
}

impl View for ModelCatalog {
    type V = Seq<SymbolView>;

    /// The symbol table that the catalog was built from.
    closed spec fn view(&self) -> Seq<SymbolView> {
        table_view(self.symbols@)
    }
}

impl ModelCatalog {
    #[verifier::type_invariant]
    spec fn well_formed(&self) -> bool {
        descriptors_view(self.entries@) == catalog_entries(table_view(self.symbols@))
    }

    /// Builds the catalog of a symbol table: the table itself, and the
    /// descriptors of the models among its symbols, in the table's order.
    pub fn build(symbols: Vec<EngineSymbol>) -> (catalog: ModelCatalog)
        ensures
            catalog@ == table_view(symbols@),
    {
        let ghost table = table_view(symbols@);
        let mut entries: Vec<ModelDescriptor> = Vec::new();
        let mut i: usize = 0;
        while i < symbols.len()
            invariant
                i <= symbols.len(),
                table == table_view(symbols@),
                descriptors_view(entries@) == catalog_entries(table.take(i as int)),
            decreases symbols.len() - i,
        {
            let ghost before = table.take(i as int);
            let ghost upto = table.take(i as int + 1);
            assert(upto.drop_last() == before);
            assert(upto.last() == symbols@[i as int]@);
            let ghost listed = descriptors_view(entries@);
            match describe_symbol(&symbols[i]) {
                Some(descriptor) => {
                    entries.push(descriptor);
                    assert(descriptors_view(entries@) == listed.push(descriptor@));
                },
                None => {},
            }
            i += 1;
        }
        assert(table.take(symbols.len() as int) == table);
        ModelCatalog { symbols, entries }
    }

    /// The symbol table that the catalog was built from.
    pub fn symbols(&self) -> (r: &Vec<EngineSymbol>)
        ensures
            table_view(r@) == self@,
    {
        &self.symbols
    }

    /// The models of the catalog, in the order in which the engine
    /// enumerated them.
    pub fn descriptors(&self) -> (r: &Vec<ModelDescriptor>)
        ensures
            descriptors_view(r@) == catalog_entries(self@),
    {
        proof {
            use_type_invariant(self);
        }
        &self.entries
    }

    /// The listing of the catalog: for each family that has models, in the
    /// fixed order of the families, its name and one line for each of its
    /// models.
    pub fn format_listing(&self) -> (r: String)
        ensures
            r@ == listing(catalog_entries(self@)),
    {
        proof {
            use_type_invariant(self);
        }
        let mut r = String::new();
        push_section(&mut r, &self.entries, ModelFamily::RealCugan);
        push_section(&mut r, &self.entries, ModelFamily::RealEsrgan);
        push_section(&mut r, &self.entries, ModelFamily::RealSr);
        push_section(&mut r, &self.entries, ModelFamily::Waifu2x);
        assert(r@ == listing(catalog_entries(self@)));
        r
    }
}

} // verus!
