//! Wire keys and documents: under which key a generated field appears when
//! a value is serialized, and which fields appear at all.
//!
//! The rules are those of the serialization layer that reads the propagated
//! directives: a rename directive names the key outright; without one the
//! casing policy is applied to the field's name; without either the name is
//! the key. A field that omits itself while absent is left out while it
//! holds no value.

use vstd::prelude::*;
use crate::companion::{CompanionType, CompanionTypeView, GeneratedFieldView};
use crate::record::{Record, Slot, constructed, converted};
use crate::text::{same_text, text_view};

verus! {

/// `field[i]` is the first character of `field` that is not an underscore.
pub open spec fn initial_at(field: Seq<char>, i: int) -> bool {
    &&& 0 <= i < field.len()
    &&& field[i] != '_'
    &&& forall|j: int| 0 <= j < i ==> field[j] == '_'
}

/// `field` has a character other than an underscore, and the first such
/// character is an ASCII one.
pub open spec fn has_ascii_initial(field: Seq<char>) -> bool {
    exists|i: int| initial_at(field, i) && (field[i] as u32) < 0x80
}

/// The casing policy can be applied to the field name. The one policy that
/// cannot be applied to every name is `camelCase`, which lowers an initial.
pub open spec fn casing_applies(policy: Seq<char>, field: Seq<char>) -> bool {
    policy == "camelCase"@ ==> has_ascii_initial(field)
}

/// The name of a field under a casing policy, as the serialization layer
/// computes it. `None` where it does not know the policy.
pub uninterp spec fn cased_field(policy: Seq<char>, field: Seq<char>) -> Option<Seq<char>>;

/// Applies a casing policy to a field name with serde's own
/// `RenameRule::from_str` and `RenameRule::apply_to_field`.
///
/// Trusted: the result is what those two functions make of the policy and
/// the name, `None` where the first rejects the policy. Left out are the
/// names on which `apply_to_field` panics: under `camelCase` it cuts the
/// converted name after its first byte, so that name must begin with an
/// ASCII character.
#[verifier::external_body]
pub(crate) fn apply_casing(policy: &str, field: &str) -> (key: Option<String>)
    requires
        casing_applies(policy@, field@),
    ensures
        text_view(key) == cased_field(policy@, field@),
{
    match serde_derive_internals::attr::RenameRule::from_str(policy) {
        Ok(rule) => Some(rule.apply_to_field(field)),
        Err(_) => None,
    }
}

/// A field name without the `r#` that marks a raw identifier, however often
/// it is repeated.
pub open spec fn unraw(name: Seq<char>) -> Seq<char>
    decreases name.len(),
{
    if name.len() >= 2 && name[0] == 'r' && name[1] == '#' {
        unraw(name.skip(2))
    } else {
        name
    }
}

/// The key of a field without a rename directive.
pub open spec fn default_key(policy: Option<Seq<char>>, name: Seq<char>) -> Option<Seq<char>> {
    match policy {
        Some(p) => if casing_applies(p, unraw(name)) {
            cased_field(p, unraw(name))
        } else {
            None
        },
        None => Some(unraw(name)),
    }
}

/// The key under which field `i` is serialized. A rename directive always
/// wins over the casing policy. `None` where the serialization layer has no
/// key for the field: it does not know the policy, or cannot apply it.
pub open spec fn wire_key(companion: CompanionTypeView, i: int) -> Option<Seq<char>> {
    match companion.fields[i].rename {
        Some(lit) => Some(lit.value),
        None => default_key(
            match companion.rename_all {
                Some(lit) => Some(lit.value),
                None => None,
            },
            companion.fields[i].name,
        ),
    }
}

/// A field appears in the document unless it omits itself while absent and
/// holds no value.
pub open spec fn serialized<V>(field: GeneratedFieldView, slot: Slot<V>) -> bool {
    !(field.omit_if_absent && slot.content().is_none())
}

/// One entry of a document: a key, and the field whose value stands under it.
pub struct Entry {
    pub key: String,
    /// The position of the field among the generated fields.
    pub field: usize,
}

/// The model of an [`Entry`].
pub struct EntryView {
    pub key: Seq<char>,
    pub field: int,
}

impl View for Entry {
    type V = EntryView;

    open spec fn view(&self) -> EntryView {
        EntryView { key: self.key@, field: self.field as int }
    }
}

/// The models of a run of entries, in order.
pub open spec fn entries_view(entries: Seq<Entry>) -> Seq<EntryView> {
    entries.map_values(|e: Entry| e@)
}

/// The model of a document that may be missing.
pub open spec fn document_view(document: Option<Vec<Entry>>) -> Option<Seq<EntryView>> {
    match document {
        Some(entries) => Some(entries_view(entries@)),
        None => None,
    }
}

/// The entries of the first `n` fields, in field order.
pub open spec fn entries_before<V>(
    companion: CompanionTypeView,
    slots: Seq<Slot<V>>,
    n: int,
) -> Seq<EntryView>
    decreases n,
{
    if n <= 0 {
        Seq::<EntryView>::empty()
    } else if serialized(companion.fields[n - 1], slots[n - 1]) {
        entries_before(companion, slots, n - 1).push(
            EntryView { key: wire_key(companion, n - 1).unwrap(), field: n - 1 },
        )
    } else {
        entries_before(companion, slots, n - 1)
    }
}

/// Every field among the first `n` that appears in the document has a key.
pub open spec fn keyed_before<V>(
    companion: CompanionTypeView,
    slots: Seq<Slot<V>>,
    n: int,
) -> bool {
    forall|i: int|
        0 <= i < n && serialized(companion.fields[i], slots[i]) ==> (#[trigger] wire_key(
            companion,
            i,
        )).is_some()
}

/// The document that a value serializes to: one entry per field that
/// appears, in field order. `None` where the value has not one slot per
/// field, or a field that appears has no key.
pub open spec fn document<V>(companion: CompanionTypeView, slots: Seq<Slot<V>>) -> Option<
    Seq<EntryView>,
> {
    if slots.len() == companion.fields.len() && keyed_before(
        companion,
        slots,
        slots.len() as int,
    ) {
        Some(entries_before(companion, slots, slots.len() as int))
    } else {
        None
    }
}

/// Whether `field` has an ASCII character as its first character other
/// than an underscore.
pub fn ascii_initial(field: &str) -> (found: bool)
    ensures
        found == has_ascii_initial(field@),
{
    for c in it: field.chars()
        invariant
            it.seq() == field@,
            forall|j: int| 0 <= j < it.index() ==> field@[j] == '_',
    {
        if c != '_' {
            assert(initial_at(field@, it.index() as int));
            return (c as u32) < 0x80;
        }
    }
    false
}

/// Strips the `r#` of a raw identifier.
pub fn strip_raw(name: &str) -> (plain: &str)
    ensures
        plain@ == unraw(name@),
{
    let mut plain = name;
    let mut n = plain.unicode_len();
    while n >= 2 && plain.get_char(0) == 'r' && plain.get_char(1) == '#'
        invariant
            n == plain@.len(),
            unraw(plain@) == unraw(name@),
        decreases n,
    {
        let rest = plain.substring_char(2, n);
        assert(rest@ =~= plain@.skip(2));
        plain = rest;
        n = n - 2;
    }
    plain
}

impl CompanionType {
    /// The key under which field `index` is serialized.
    ///
    /// There is none where the type has no such field, and none where the
    /// serialization layer has none for the field.
    pub fn wire_key(&self, index: usize) -> (key: Option<String>)
        ensures
            text_view(key) == if index < self@.fields.len() {
                wire_key(self@, index as int)
            } else {
                None
            },
    {
        if index >= self.fields.len() {
            return None;
        }
        let field = &self.fields[index];
        assert(self@.fields[index as int] == field@);
        if let Some(lit) = &field.rename {
            return Some(lit.value.clone());
        }
        let name = strip_raw(field.name.as_str());
        match &self.rename_all {
            Some(policy) => {
                let policy = policy.value.as_str();
                if same_text(policy, "camelCase") && !ascii_initial(name) {
                    None
                } else {
                    apply_casing(policy, name)
                }
            },
            None => Some(name.to_owned()),
        }
    }
}

impl<V> Record<V> {
    /// The document that the record serializes to as a value of `companion`.
    pub fn document(&self, companion: &CompanionType) -> (entries: Option<Vec<Entry>>)
        ensures
            document_view(entries) == document(companion@, self@),
    {
        let n = self.slots.len();
        if n != companion.fields.len() {
            return None;
        }
        let ghost model = companion@;
        let mut entries: Vec<Entry> = Vec::new();
        let mut i: usize = 0;
        while i < n
            invariant
                i <= n,
                n == self.slots.len(),
                n == companion.fields.len(),
                model == companion@,
                keyed_before(model, self@, i as int),
                entries_view(entries@) == entries_before(model, self@, i as int),
            decreases n - i,
        {
            let field = &companion.fields[i];
            assert(model.fields[i as int] == field@);
            let absent = self.slots[i].value().is_none();
            if !(field.omit_if_absent && absent) {
                match companion.wire_key(i) {
                    Some(key) => {
                        let ghost before = entries@;
                        entries.push(Entry { key, field: i });
                        assert(entries_view(entries@) =~= entries_view(before).push(
                            EntryView { key: key@, field: i as int },
                        ));
                    },
                    None => {
                        assert(!keyed_before(model, self@, n as int));
                        return None;
                    },
                }
            }
            i += 1;
        }
        Some(entries)
    }
}

/// The entries of the plainly stored fields among the first `n`, in field
/// order.
pub open spec fn plain_entries(companion: CompanionTypeView, n: int) -> Seq<EntryView>
    decreases n,
{
    if n <= 0 {
        Seq::<EntryView>::empty()
    } else if companion.fields[n - 1].ty is Plain {
        plain_entries(companion, n - 1).push(
            EntryView { key: wire_key(companion, n - 1).unwrap(), field: n - 1 },
        )
    } else {
        plain_entries(companion, n - 1)
    }
}

/// In the document of a freshly constructed value a field appears exactly
/// when it is stored plainly: no optional field has a key in it.
pub proof fn fresh_value_omits_optional_fields<V>(
    companion: CompanionTypeView,
    args: Seq<V>,
    i: int,
)
    requires
        companion.well_formed(),
        0 <= i < companion.fields.len(),
    ensures
        serialized(companion.fields[i], constructed(companion.fields, args)[i]) == (
        companion.fields[i].ty is Plain),
{
}

/// The document of a freshly constructed value holds the entries of the
/// plainly stored fields, in field order, and nothing else.
pub proof fn fresh_document_holds_required_keys<V>(companion: CompanionTypeView, args: Seq<V>)
    requires
        companion.well_formed(),
    ensures
        document(companion, constructed(companion.fields, args)) matches Some(entries)
            ==> entries == plain_entries(companion, companion.fields.len() as int),
{
    fresh_entries_are_plain_entries(companion, args, companion.fields.len() as int);
}

/// The entries of a freshly constructed value among the first `n` fields are
/// those of the plainly stored fields.
pub proof fn fresh_entries_are_plain_entries<V>(
    companion: CompanionTypeView,
    args: Seq<V>,
    n: int,
)
    requires
        companion.well_formed(),
        n <= companion.fields.len(),
    ensures
        entries_before(companion, constructed(companion.fields, args), n) == plain_entries(
            companion,
            n,
        ),
    decreases n,
{
    if n > 0 {
        fresh_entries_are_plain_entries(companion, args, n - 1);
        fresh_value_omits_optional_fields(companion, args, n - 1);
    }
}

/// A value in which every field holds a value serializes every field.
pub proof fn converted_value_keeps_every_field<V>(
    companion: CompanionTypeView,
    source: Seq<V>,
    i: int,
)
    requires
        source.len() == companion.fields.len(),
        0 <= i < companion.fields.len(),
    ensures
        serialized(companion.fields[i], converted(companion.fields, source)[i]),
{
}

/// A rename directive decides the key, whatever the casing policy is.
pub proof fn rename_wins_over_casing(companion: CompanionTypeView, i: int)
    requires
        0 <= i < companion.fields.len(),
        companion.fields[i].rename is Some,
    ensures
        wire_key(companion, i) == Some(companion.fields[i].rename->Some_0.value),
{
}

} // verus!
