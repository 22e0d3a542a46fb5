//! Values of a companion type, and what its generated operations do to
//! them: construction, setting, reading, and conversion from the source.
//!
//! A value is held as one slot per generated field, in field order. The
//! type of the field values is left to the caller.

use vstd::prelude::*;
use crate::companion::{CompanionType, FieldTypeView, GeneratedFieldView, generated_fields_view};
use crate::text::same_text;

verus! {

/// The stored representation of one field's value.
pub enum Slot<V> {
    /// The raw value of a field stored plainly.
    Required(V),
    /// The optional container of any other field: present or absent.
    Optional(Option<V>),
}

impl<V> Slot<V> {
    /// The value that the slot holds, if it holds one.
    pub open spec fn content(self) -> Option<V> {
        match self {
            Slot::Required(v) => Some(v),
            Slot::Optional(o) => o,
        }
    }

    /// The slot after its field's setter was given `value`: a raw value is
    /// replaced, an optional container holds the value as present.
    pub open spec fn assigned(self, value: V) -> Slot<V> {
        match self {
            Slot::Required(_) => Slot::Required(value),
            Slot::Optional(_) => Slot::Optional(Some(value)),
        }
    }

    /// The value that the slot holds, if it holds one.
    pub fn value(&self) -> (held: Option<&V>)
        ensures
            match held {
                Some(v) => self.content() == Some(*v),
                None => self.content().is_none(),
            },
    {
        match self {
            Slot::Required(v) => Some(v),
            Slot::Optional(Some(v)) => Some(v),
            Slot::Optional(None) => None,
        }
    }

    /// Whether the slot is an optional container.
    pub fn is_optional(&self) -> (optional: bool)
        ensures
            optional == (*self is Optional),
    {
        match self {
            Slot::Required(_) => false,
            Slot::Optional(_) => true,
        }
    }
}

/// The slot of a field with the given type that holds `value`.
pub open spec fn filled<V>(ty: FieldTypeView, value: V) -> Slot<V> {
    match ty {
        FieldTypeView::Plain(_) => Slot::Required(value),
        FieldTypeView::Optional(_) => Slot::Optional(Some(value)),
    }
}

/// The number of fields stored plainly among the first `n`.
pub open spec fn plain_before(fields: Seq<GeneratedFieldView>, n: int) -> nat
    decreases n,
{
    if n <= 0 {
        0
    } else {
        plain_before(fields, n - 1) + if fields[n - 1].ty is Plain {
            1nat
        } else {
            0nat
        }
    }
}

/// The number of parameters that the constructor takes: one for each field
/// stored plainly.
pub open spec fn parameter_count(fields: Seq<GeneratedFieldView>) -> nat {
    plain_before(fields, fields.len() as int)
}

/// What the constructor builds from its arguments: each field stored
/// plainly takes the next argument, every other field is absent.
pub open spec fn constructed<V>(fields: Seq<GeneratedFieldView>, args: Seq<V>) -> Seq<Slot<V>> {
    Seq::new(
        fields.len(),
        |i: int|
            if fields[i].ty is Plain {
                Slot::Required(args[plain_before(fields, i) as int])
            } else {
                Slot::Optional(None)
            },
    )
}

/// What the conversion builds from a source value, given as its field
/// values in field order: every field holds the source's value.
pub open spec fn converted<V>(fields: Seq<GeneratedFieldView>, source: Seq<V>) -> Seq<Slot<V>> {
    Seq::new(fields.len(), |i: int| filled(fields[i].ty, source[i]))
}

/// The slots after the setter of field `index` was given `value`.
pub open spec fn updated<V>(slots: Seq<Slot<V>>, index: int, value: V) -> Seq<Slot<V>> {
    slots.update(index, slots[index].assigned(value))
}

/// The slots are those of a value of a type with these fields: one slot per
/// field, an optional container exactly for the optional fields.
pub open spec fn conforms<V>(fields: Seq<GeneratedFieldView>, slots: Seq<Slot<V>>) -> bool {
    &&& slots.len() == fields.len()
    &&& forall|i: int|
        0 <= i < fields.len() ==> ((#[trigger] slots[i]) is Optional) == (fields[i].ty
            is Optional)
}

/// A value of a companion type.
pub struct Record<V> {
    /// One slot per generated field, in field order.
    pub slots: Vec<Slot<V>>,
}

impl<V> View for Record<V> {
    type V = Seq<Slot<V>>;

    open spec fn view(&self) -> Seq<Slot<V>> {
        self.slots@
    }
}

/// The model of a record that may be missing.
pub open spec fn record_view<V>(record: Option<Record<V>>) -> Option<Seq<Slot<V>>> {
    match record {
        Some(r) => Some(r@),
        None => None,
    }
}

/// The items of `items` in reverse order.
fn reversed<T>(items: Vec<T>) -> (out: Vec<T>)
    ensures
        out@ == items@.reverse(),
{
    let ghost all = items@;
    let mut rest = items;
    let mut out: Vec<T> = Vec::new();
    while rest.len() > 0
        invariant
            rest@.len() + out@.len() == all.len(),
            rest@ == all.take(rest@.len() as int),
            forall|j: int| 0 <= j < out@.len() ==> out@[j] == all[all.len() - 1 - j],
        decreases rest.len(),
    {
        let item = rest.pop().unwrap();
        out.push(item);
    }
    assert(out@ =~= all.reverse());
    out
}

/// `fields[i]` is the first field with the given name.
pub open spec fn first_named(fields: Seq<GeneratedFieldView>, name: Seq<char>, i: int) -> bool {
    &&& 0 <= i < fields.len()
    &&& fields[i].name == name
    &&& forall|j: int| 0 <= j < i ==> (#[trigger] fields[j]).name != name
}

impl CompanionType {
    /// The position of the field with the given name, which is the name of
    /// its setter. There is none where no field has that name.
    pub fn field_index(&self, name: &str) -> (index: Option<usize>)
        ensures
            match index {
                Some(i) => first_named(self@.fields, name@, i as int),
                None => forall|j: int|
                    0 <= j < self@.fields.len() ==> (#[trigger] self@.fields[j]).name != name@,
            },
    {
        let ghost model = self@.fields;
        let mut i: usize = 0;
        while i < self.fields.len()
            invariant
                i <= self.fields.len(),
                model == generated_fields_view(self.fields@),
                forall|j: int| 0 <= j < i ==> (#[trigger] model[j]).name != name@,
            decreases self.fields.len() - i,
        {
            if same_text(self.fields[i].name.as_str(), name) {
                assert(model[i as int].name == name@);
                return Some(i);
            }
            assert(model[i as int].name != name@);
            i += 1;
        }
        None
    }

    /// The number of parameters that the constructor takes.
    pub fn parameter_count(&self) -> (count: usize)
        ensures
            count == parameter_count(self@.fields),
    {
        let ghost model = self@.fields;
        let mut count: usize = 0;
        let mut i: usize = 0;
        while i < self.fields.len()
            invariant
                i <= self.fields.len(),
                model == generated_fields_view(self.fields@),
                count == plain_before(model, i as int),
                count <= i,
            decreases self.fields.len() - i,
        {
            if !self.fields[i].ty.is_optional() {
                count += 1;
            }
            i += 1;
        }
        count
    }

    /// The constructor: builds a value from one argument per field stored
    /// plainly, in field order. Every other field starts out absent.
    ///
    /// There is no value for any other number of arguments.
    pub fn construct<V>(&self, args: Vec<V>) -> (record: Option<Record<V>>)
        ensures
            record_view(record) == if args@.len() == parameter_count(self@.fields) {
                Some(constructed(self@.fields, args@))
            } else {
                None
            },
    {
        if args.len() != self.parameter_count() {
            return None;
        }
        let ghost model = self@.fields;
        let ghost all = args@;
        let n = self.fields.len();
        let mut rest = args;
        let mut backwards: Vec<Slot<V>> = Vec::new();
        let mut i: usize = n;
        while i > 0
            invariant
                i <= n,
                n == self.fields.len(),
                model == generated_fields_view(self.fields@),
                all.len() == plain_before(model, n as int),
                rest@ == all.take(plain_before(model, i as int) as int),
                plain_before(model, i as int) <= all.len(),
                backwards@.len() == n - i,
                forall|j: int|
                    0 <= j < n - i ==> #[trigger] backwards@[j] == constructed(model, all)[n - 1
                        - j],
            decreases i,
        {
            i -= 1;
            let slot = if self.fields[i].ty.is_optional() {
                Slot::Optional(None)
            } else {
                Slot::Required(rest.pop().unwrap())
            };
            backwards.push(slot);
        }
        let slots = reversed(backwards);
        assert(slots@ =~= constructed(model, all));
        Some(Record { slots })
    }

    /// The conversion from the source type: builds a value from the source's
    /// field values, given in field order. Every field holds its value.
    ///
    /// There is no value unless there is exactly one source value per field.
    pub fn from_source<V>(&self, source: Vec<V>) -> (record: Option<Record<V>>)
        ensures
            record_view(record) == if source@.len() == self@.fields.len() {
                Some(converted(self@.fields, source@))
            } else {
                None
            },
    {
        let n = self.fields.len();
        if source.len() != n {
            return None;
        }
        let ghost model = self@.fields;
        let ghost all = source@;
        let mut rest = source;
        let mut backwards: Vec<Slot<V>> = Vec::new();
        let mut i: usize = n;
        while i > 0
            invariant
                i <= n,
                n == self.fields.len(),
                n == all.len(),
                model == generated_fields_view(self.fields@),
                rest@ == all.take(i as int),
                backwards@.len() == n - i,
                forall|j: int|
                    0 <= j < n - i ==> #[trigger] backwards@[j] == converted(model, all)[n - 1
                        - j],
            decreases i,
        {
            i -= 1;
            let value = rest.pop().unwrap();
            let slot = if self.fields[i].ty.is_optional() {
                Slot::Optional(Some(value))
            } else {
                Slot::Required(value)
            };
            backwards.push(slot);
        }
        let slots = reversed(backwards);
        assert(slots@ =~= converted(model, all));
        Some(Record { slots })
    }
}

impl<V> Record<V> {
    /// The setter of field `index`: stores `value` and hands the record
    /// back. A field stored plainly has its value replaced; an optional
    /// field holds the value as present.
    ///
    /// There is no result where the record has no such field.
    pub fn set(self, index: usize, value: V) -> (record: Option<Record<V>>)
        ensures
            record_view(record) == if index < self@.len() {
                Some(updated(self@, index as int, value))
            } else {
                None
            },
    {
        let mut slots = self.slots;
        if index >= slots.len() {
            return None;
        }
        let slot = if slots[index].is_optional() {
            Slot::Optional(Some(value))
        } else {
            Slot::Required(value)
        };
        slots.set(index, slot);
        Some(Record { slots })
    }

    /// The read accessor of field `index`: the stored representation, which
    /// is the raw value of a field stored plainly and the optional container
    /// of any other.
    pub fn get(&self, index: usize) -> (slot: Option<&Slot<V>>)
        ensures
            match slot {
                Some(s) => index < self@.len() && *s == self@[index as int],
                None => index >= self@.len(),
            },
    {
        if index < self.slots.len() {
            Some(&self.slots[index])
        } else {
            None
        }
    }
}

/// Conversion from a source value, then reading back: every field holds the
/// source's value, raw for a field stored plainly and present for an
/// optional one.
pub proof fn conversion_round_trips<V>(fields: Seq<GeneratedFieldView>, source: Seq<V>, i: int)
    requires
        source.len() == fields.len(),
        0 <= i < fields.len(),
    ensures
        converted(fields, source)[i].content() == Some(source[i]),
        fields[i].ty is Plain ==> converted(fields, source)[i] == Slot::Required(source[i]),
        fields[i].ty is Optional ==> converted(fields, source)[i] == Slot::Optional(
            Some(source[i]),
        ),
{
}

/// A constructed value holds the arguments in its plainly stored fields, in
/// order, and nothing in any other field.
pub proof fn construction_fills_required_only<V>(
    fields: Seq<GeneratedFieldView>,
    args: Seq<V>,
    i: int,
)
    requires
        args.len() == parameter_count(fields),
        0 <= i < fields.len(),
    ensures
        fields[i].ty is Plain ==> plain_before(fields, i) < args.len() && constructed(
            fields,
            args,
        )[i] == Slot::Required(args[plain_before(fields, i) as int]),
        fields[i].ty is Optional ==> constructed(fields, args)[i] == Slot::<V>::Optional(None),
{
    plain_before_grows(fields, i + 1, fields.len() as int);
}

/// The count of plainly stored fields does not shrink along the fields.
pub proof fn plain_before_grows(fields: Seq<GeneratedFieldView>, m: int, n: int)
    requires
        m <= n,
    ensures
        plain_before(fields, m) <= plain_before(fields, n),
    decreases n - m,
{
    if m < n {
        plain_before_grows(fields, m, n - 1);
    }
}

/// Constructed and converted values have one slot per field, an optional
/// container exactly for the optional fields; a setter keeps that so.
pub proof fn operations_conform<V>(
    fields: Seq<GeneratedFieldView>,
    args: Seq<V>,
    slots: Seq<Slot<V>>,
    i: int,
    value: V,
)
    ensures
        conforms(fields, constructed(fields, args)),
        conforms(fields, converted(fields, args)),
        conforms(fields, slots) && 0 <= i < slots.len() ==> conforms(
            fields,
            updated(slots, i, value),
        ),
{
}

/// Setting a field twice to the same value gives the same as setting it
/// once.
pub proof fn setter_is_idempotent<V>(slots: Seq<Slot<V>>, i: int, value: V)
    requires
        0 <= i < slots.len(),
    ensures
        updated(updated(slots, i, value), i, value) == updated(slots, i, value),
{
    assert(updated(updated(slots, i, value), i, value) =~= updated(slots, i, value));
}

/// After a field's setter its accessor reads the value that was set, and
/// every other field reads as before.
pub proof fn setter_then_accessor<V>(slots: Seq<Slot<V>>, i: int, value: V, k: int)
    requires
        0 <= i < slots.len(),
        0 <= k < slots.len(),
    ensures
        updated(slots, i, value)[i].content() == Some(value),
        k != i ==> updated(slots, i, value)[k] == slots[k],
{
}

} // verus!
