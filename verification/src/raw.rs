//! Extraction of a record's raw fields, whatever shape the record arrives in.
use vstd::prelude::*;
use crate::blocks::Links;
use crate::error::{outcome, DecodeError};
use crate::json::{find, lookup, Json, JsonView};
use crate::text::{
    decimal_digits, decimal_text, is_digit, lemma_decimal_round_trip, unquote, unquoted,
};
use crate::value::{Value, ValueView};

verus! {

/// The slots of a record: the keys that resolved to something, with what
/// they resolved to, in entry order.
pub type Slots = Vec<(String, Value)>;

/// The mathematical model of [`Slots`].
pub type SlotsView = Seq<(Seq<char>, ValueView)>;

/// What a record holds before its opcode is looked at.
#[derive(Debug, PartialEq)]
pub struct RawBlock {
    pub opcode: String,
    pub next: Option<String>,
    pub parent: Option<String>,
    pub inputs: Slots,
    pub fields: Slots,
    pub params: Slots,
    /// The signature payload of a procedure prototype, as it came.
    pub mutation: Option<Json>,
}

/// The mathematical model of a [`RawBlock`].
pub ghost struct RawBlockView {
    pub opcode: Seq<char>,
    pub next: Option<Seq<char>>,
    pub parent: Option<Seq<char>>,
    pub inputs: SlotsView,
    pub fields: SlotsView,
    pub params: SlotsView,
    pub mutation: Option<JsonView>,
}

impl View for RawBlock {
    type V = RawBlockView;

    open spec fn view(&self) -> RawBlockView {
        RawBlockView {
            opcode: self.opcode@,
            next: self.next.deep_view(),
            parent: self.parent.deep_view(),
            inputs: self.inputs.deep_view(),
            fields: self.fields.deep_view(),
            params: self.params.deep_view(),
            mutation: self.mutation.deep_view(),
        }
    }
}

impl DeepView for RawBlock {
    type V = RawBlockView;

    open spec fn deep_view(&self) -> RawBlockView {
        self@
    }
}

/// The value of the slot at position `i`, if there are that many slots.
pub open spec fn slot_at(slots: SlotsView, i: int) -> Option<ValueView> {
    if 0 <= i < slots.len() {
        Some(slots[i].1)
    } else {
        None
    }
}

/// The value of the last slot under `key`, and nothing where no slot has that key.
pub open spec fn slot_named(slots: SlotsView, key: Seq<char>) -> ValueView {
    match lookup(slots, key) {
        Some(value) => value,
        None => ValueView::Null,
    }
}

impl RawBlockView {
    /// The links that a node decoded from this record carries.
    pub open spec fn links(self) -> Links {
        Links { prev: self.parent, next: self.next }
    }

    /// The input at position `i` among the inputs that were kept.
    pub open spec fn input(self, i: int) -> Option<ValueView> {
        slot_at(self.inputs, i)
    }

    /// The field at position `i` among the fields that were kept.
    pub open spec fn field(self, i: int) -> Option<ValueView> {
        slot_at(self.fields, i)
    }

    /// The input under `key`, and nothing where no input has that key.
    pub open spec fn input_named(self, key: Seq<char>) -> ValueView {
        slot_named(self.inputs, key)
    }

    /// The field under `key`, and nothing where no field has that key.
    pub open spec fn field_named(self, key: Seq<char>) -> ValueView {
        slot_named(self.fields, key)
    }

    /// The parameter under `key`, and nothing where no parameter has that key.
    pub open spec fn param_named(self, key: Seq<char>) -> ValueView {
        slot_named(self.params, key)
    }
}

/// The items of a sequence under the keys `1`, `2`, and so on.
pub open spec fn numbered(items: Seq<JsonView>) -> Seq<(Seq<char>, JsonView)> {
    Seq::new(items.len(), |i: int| (decimal_digits((i + 1) as nat), items[i]))
}

/// The entries of a record: those of a mapping as they are, those of a
/// sequence under their positions, and none for a scalar.
pub open spec fn keyed(payload: JsonView) -> Seq<(Seq<char>, JsonView)> {
    match payload {
        JsonView::Object(entries) => entries,
        JsonView::Array(items) => numbered(items),
        _ => Seq::empty(),
    }
}

/// The slots that a collection's entries resolve to: every cell resolved at
/// `offset`, the ones that resolve to nothing left out, and the first cell
/// that fails to resolve failing the whole.
pub open spec fn slots(entries: Seq<(Seq<char>, JsonView)>, offset: nat) -> Result<
    SlotsView,
    DecodeError,
>
    decreases entries.len(),
{
    if entries.len() == 0 {
        Ok(Seq::empty())
    } else {
        match slots(entries.drop_last(), offset) {
            Err(e) => Err(e),
            Ok(before) => match Value::resolved(entries.last().1, offset) {
                Err(e) => Err(e),
                Ok(ValueView::Null) => Ok(before),
                Ok(value) => Ok(before.push((entries.last().0, value))),
            },
        }
    }
}

/// The identifier that a link entry holds: its text without stray quotes.
/// A missing, null or non-text entry is no identifier.
pub open spec fn identifier(entry: Option<JsonView>) -> Option<Seq<char>> {
    match entry {
        Some(JsonView::String(text)) => Some(unquoted(text)),
        _ => None,
    }
}

/// The slots of the optional `params` collection.
pub open spec fn params_of(entry: Option<JsonView>) -> Result<SlotsView, DecodeError> {
    match entry {
        None => Ok(Seq::empty()),
        Some(JsonView::Object(cells)) => slots(cells, 0),
        Some(_) => Err(DecodeError::MissingInputsOrFields),
    }
}

/// What a record's entries extract to, once its opcode is known.
pub open spec fn extracted_with(entries: Seq<(Seq<char>, JsonView)>, opcode: Seq<char>) -> Result<
    RawBlockView,
    DecodeError,
> {
    match (lookup(entries, "inputs"@), lookup(entries, "fields"@)) {
        (Some(JsonView::Object(input_cells)), Some(JsonView::Object(field_cells))) => {
            match slots(input_cells, 1) {
                Err(e) => Err(e),
                Ok(inputs) => match slots(field_cells, 0) {
                    Err(e) => Err(e),
                    Ok(fields) => match params_of(lookup(entries, "params"@)) {
                        Err(e) => Err(e),
                        Ok(params) => Ok(
                            RawBlockView {
                                opcode,
                                next: identifier(lookup(entries, "next"@)),
                                parent: identifier(lookup(entries, "parent"@)),
                                inputs,
                                fields,
                                params,
                                mutation: lookup(entries, "mutation"@),
                            },
                        ),
                    },
                },
            }
        },
        _ => Err(DecodeError::MissingInputsOrFields),
    }
}

/// What a record extracts to.
pub open spec fn extracted(payload: JsonView) -> Result<RawBlockView, DecodeError> {
    match lookup(keyed(payload), "opcode"@) {
        None => Err(DecodeError::MissingOpcode),
        Some(JsonView::String(opcode)) => extracted_with(keyed(payload), opcode),
        Some(_) => Err(DecodeError::NotAString),
    }
}

/// Once a cell has failed to resolve, no later cell undoes the failure.
pub proof fn lemma_slots_error_persists(
    entries: Seq<(Seq<char>, JsonView)>,
    offset: nat,
    k: int,
)
    requires
        0 <= k <= entries.len(),
        slots(entries.subrange(0, k), offset) is Err,
    ensures
        slots(entries, offset) == slots(entries.subrange(0, k), offset),
    decreases entries.len() - k,
{
    if k == entries.len() {
        assert(entries.subrange(0, k) =~= entries);
    } else {
        let longer = entries.subrange(0, k + 1);
        assert(longer.drop_last() =~= entries.subrange(0, k));
        lemma_slots_error_persists(entries, offset, k + 1);
    }
}

/// Resolving a collection fails only with a malformed cell.
pub proof fn lemma_slots_failures(entries: Seq<(Seq<char>, JsonView)>, offset: nat)
    ensures
        slots(entries, offset) matches Err(e) ==> e == DecodeError::MalformedValue,
    decreases entries.len(),
{
    if entries.len() > 0 {
        lemma_slots_failures(entries.drop_last(), offset);
    }
}

/// Extraction fails in four ways only: the opcode is missing or is no text,
/// a collection is missing or is no mapping, or a cell is malformed.
pub proof fn lemma_extraction_failures(payload: JsonView)
    ensures
        extracted(payload) matches Err(e) ==> e == DecodeError::MissingOpcode || e
            == DecodeError::NotAString || e == DecodeError::MissingInputsOrFields || e
            == DecodeError::MalformedValue,
{
    let entries = keyed(payload);
    match (lookup(entries, "inputs"@), lookup(entries, "fields"@)) {
        (Some(JsonView::Object(input_cells)), Some(JsonView::Object(field_cells))) => {
            lemma_slots_failures(input_cells, 1);
            lemma_slots_failures(field_cells, 0);
            match lookup(entries, "params"@) {
                Some(JsonView::Object(cells)) => {
                    lemma_slots_failures(cells, 0);
                },
                _ => {},
            }
        },
        _ => {},
    }
}

/// Whether every slot holds something.
pub open spec fn hold_something(slots: SlotsView) -> bool {
    forall|i: int| 0 <= i < slots.len() ==> !((#[trigger] slots[i]).1 is Null)
}

/// Every slot that is kept holds something: what resolves to nothing is
/// left out.
pub proof fn lemma_slots_hold_something(entries: Seq<(Seq<char>, JsonView)>, offset: nat)
    requires
        slots(entries, offset) is Ok,
    ensures
        hold_something(slots(entries, offset)->Ok_0),
    decreases entries.len(),
{
    if entries.len() > 0 {
        lemma_slots_hold_something(entries.drop_last(), offset);
    }
}

/// In an extracted record presence implies meaning: every input, field and
/// parameter holds something.
pub proof fn lemma_extracted_slots_hold_something(payload: JsonView)
    requires
        extracted(payload) is Ok,
    ensures
        hold_something(extracted(payload)->Ok_0.inputs),
        hold_something(extracted(payload)->Ok_0.fields),
        hold_something(extracted(payload)->Ok_0.params),
{
    let entries = keyed(payload);
    match (lookup(entries, "inputs"@), lookup(entries, "fields"@)) {
        (Some(JsonView::Object(input_cells)), Some(JsonView::Object(field_cells))) => {
            lemma_slots_hold_something(input_cells, 1);
            lemma_slots_hold_something(field_cells, 0);
            match lookup(entries, "params"@) {
                Some(JsonView::Object(cells)) => {
                    lemma_slots_hold_something(cells, 0);
                },
                _ => {},
            }
        },
        _ => {},
    }
}

/// No positional key is `opcode`, so a record in sequence form has no opcode.
pub proof fn lemma_sequence_has_no_opcode(items: Seq<JsonView>)
    ensures
        extracted(JsonView::Array(items)) matches Err(DecodeError::MissingOpcode),
{
    lemma_numbered_has_no_opcode(items, items.len() as int);
    assert(numbered(items).subrange(0, items.len() as int) =~= numbered(items));
}

/// No key among the first `k` positional keys is `opcode`.
proof fn lemma_numbered_has_no_opcode(items: Seq<JsonView>, k: int)
    requires
        0 <= k <= items.len(),
    ensures
        lookup(numbered(items).subrange(0, k), "opcode"@) is None,
    decreases k,
{
    if k > 0 {
        lemma_numbered_has_no_opcode(items, k - 1);
        let upto = numbered(items).subrange(0, k);
        assert(upto.drop_last() =~= numbered(items).subrange(0, k - 1));
        let key = upto.last().0;
        assert(key == decimal_digits(k as nat));
        lemma_decimal_round_trip(k as nat);
        reveal_strlit("opcode");
        assert(!is_digit("opcode"@[0]));
        assert(is_digit(key[0]));
    }
}

/// Copies a link identifier.
pub fn clone_link(link: &Option<String>) -> (copy: Option<String>)
    ensures
        copy.deep_view() == link.deep_view(),
{
    match link {
        Some(id) => Some(id.clone()),
        None => None,
    }
}

/// Puts the items of a sequence under the keys `1`, `2`, and so on.
pub fn number_items(items: &Vec<Json>) -> (entries: Vec<(String, Json)>)
    ensures
        entries.deep_view() == numbered(items.deep_view()),
{
    let mut entries: Vec<(String, Json)> = Vec::new();
    let mut i: usize = 0;
    while i < items.len()
        invariant
            i <= items.len(),
            entries.len() == i,
            forall|k: int|
                0 <= k < i ==> (#[trigger] entries@[k]).0@ == decimal_digits((k + 1) as nat)
                    && entries@[k].1@ == items@[k]@,
        decreases items.len() - i,
    {
        let key = decimal_text(i + 1);
        let item = items[i].clone();
        entries.push((key, item));
        i += 1;
    }
    assert(entries.deep_view() =~= numbered(items.deep_view()));
    entries
}

/// Resolves every cell of a collection at `offset` and keeps what is not nothing.
pub fn resolve_slots(cells: &Vec<(String, Json)>, offset: usize) -> (r: Result<Slots, DecodeError>)
    ensures
        outcome(r) == slots(cells.deep_view(), offset as nat),
{
    let ghost all = cells.deep_view();
    let mut kept: Slots = Vec::new();
    let mut i: usize = 0;
    assert(kept.deep_view() =~= Seq::empty());
    while i < cells.len()
        invariant
            i <= cells.len(),
            all == cells.deep_view(),
            slots(all.subrange(0, i as int), offset as nat) == Ok::<SlotsView, DecodeError>(
                kept.deep_view(),
            ),
        decreases cells.len() - i,
    {
        let ghost before = kept.deep_view();
        proof {
            let longer = all.subrange(0, i + 1);
            assert(longer.drop_last() =~= all.subrange(0, i as int));
            assert(longer.last() == all[i as int]);
            assert(all[i as int] == (cells@[i as int].0@, cells@[i as int].1@));
        }
        match Value::resolve(&cells[i].1, offset) {
            Err(e) => {
                proof {
                    lemma_slots_error_persists(all, offset as nat, i + 1);
                }
                return Err(e);
            },
            Ok(value) => {
                if !value.is_null() {
                    let key = cells[i].0.clone();
                    kept.push((key, value));
                    assert(kept.deep_view() =~= before.push((cells@[i as int].0@, value@)));
                }
            },
        }
        i += 1;
    }
    assert(all.subrange(0, i as int) =~= all);
    Ok(kept)
}

/// Copies the value of the slot at position `i`.
pub fn value_at(slots: &Slots, i: usize) -> (value: Option<Value>)
    ensures
        value.deep_view() == slot_at(slots.deep_view(), i as int),
{
    if i < slots.len() {
        assert(slots.deep_view()[i as int] == (slots@[i as int].0@, slots@[i as int].1@));
        Some(slots[i].1.clone())
    } else {
        None
    }
}

/// Copies the value of the last slot under `key`.
pub fn value_named(slots: &Slots, key: &str) -> (value: Value)
    ensures
        value@ == slot_named(slots.deep_view(), key@),
{
    match find(slots, key) {
        Some(value) => value.clone(),
        None => Value::Null,
    }
}

/// Reads a link entry as an identifier.
pub fn read_link(entry: Option<&Json>) -> (link: Option<String>)
    ensures
        link.deep_view() == identifier(entry.deep_view()),
{
    match entry {
        Some(Json::String(text)) => Some(unquote(text.as_str())),
        _ => None,
    }
}

impl RawBlock {
    /// Copies the input at position `i`.
    pub fn input(&self, i: usize) -> (value: Option<Value>)
        ensures
            value.deep_view() == self@.input(i as int),
    {
        value_at(&self.inputs, i)
    }

    /// Copies the field at position `i`.
    pub fn field(&self, i: usize) -> (value: Option<Value>)
        ensures
            value.deep_view() == self@.field(i as int),
    {
        value_at(&self.fields, i)
    }

    /// Copies the input under `key`.
    pub fn input_named(&self, key: &str) -> (value: Value)
        ensures
            value@ == self@.input_named(key@),
    {
        value_named(&self.inputs, key)
    }

    /// Copies the field under `key`.
    pub fn field_named(&self, key: &str) -> (value: Value)
        ensures
            value@ == self@.field_named(key@),
    {
        value_named(&self.fields, key)
    }

    /// Copies the parameter under `key`.
    pub fn param_named(&self, key: &str) -> (value: Value)
        ensures
            value@ == self@.param_named(key@),
    {
        value_named(&self.params, key)
    }

    /// The identifier that a node decoded from this record has as its previous link.
    pub fn prev(&self) -> (id: Option<String>)
        ensures
            id.deep_view() == self@.parent,
    {
        clone_link(&self.parent)
    }

    /// The identifier that a node decoded from this record has as its next link.
    pub fn next(&self) -> (id: Option<String>)
        ensures
            id.deep_view() == self@.next,
    {
        clone_link(&self.next)
    }

    /// Extracts the raw fields of one record from its entries.
    fn from_entries(entries: &Vec<(String, Json)>) -> (r: Result<RawBlock, DecodeError>)
        ensures
            outcome(r) == match lookup(entries.deep_view(), "opcode"@) {
                None => Err(DecodeError::MissingOpcode),
                Some(JsonView::String(opcode)) => extracted_with(entries.deep_view(), opcode),
                Some(_) => Err(DecodeError::NotAString),
            },
    {
        let opcode = match find(entries, "opcode") {
            None => {
                return Err(DecodeError::MissingOpcode);
            },
            Some(Json::String(name)) => name.clone(),
            Some(_) => {
                return Err(DecodeError::NotAString);
            },
        };
        let input_cells = match find(entries, "inputs") {
            Some(Json::Object(cells)) => cells,
            _ => {
                return Err(DecodeError::MissingInputsOrFields);
            },
        };
        let field_cells = match find(entries, "fields") {
            Some(Json::Object(cells)) => cells,
            _ => {
                return Err(DecodeError::MissingInputsOrFields);
            },
        };
        proof {
            Json::lemma_object_model(*input_cells);
            Json::lemma_object_model(*field_cells);
        }
        let inputs = match resolve_slots(input_cells, 1) {
            Ok(slots) => slots,
            Err(e) => {
                return Err(e);
            },
        };
        let fields = match resolve_slots(field_cells, 0) {
            Ok(slots) => slots,
            Err(e) => {
                return Err(e);
            },
        };
        let params = match find(entries, "params") {
            None => Vec::new(),
            Some(Json::Object(cells)) => {
                proof {
                    Json::lemma_object_model(*cells);
                }
                match resolve_slots(cells, 0) {
                    Ok(slots) => slots,
                    Err(e) => {
                        return Err(e);
                    },
                }
            },
            Some(_) => {
                return Err(DecodeError::MissingInputsOrFields);
            },
        };
        let next = read_link(find(entries, "next"));
        let parent = read_link(find(entries, "parent"));
        let mutation = match find(entries, "mutation") {
            Some(payload) => Some(payload.clone()),
            None => None,
        };
        assert(params.deep_view() =~= params_of(lookup(entries.deep_view(), "params"@))->Ok_0);
        Ok(RawBlock { opcode, next, parent, inputs, fields, params, mutation })
    }

    /// Extracts the raw fields of one record.
    ///
    /// The record may be a mapping or a sequence. Its `opcode` must be text,
    /// its `inputs` and `fields` must be mappings, and every cell in them and
    /// in the optional `params` must resolve.
    pub fn extract(payload: &Json) -> (r: Result<RawBlock, DecodeError>)
        ensures
            outcome(r) == extracted(payload@),
    {
        match payload {
            Json::Object(entries) => {
                proof {
                    Json::lemma_object_model(*entries);
                }
                Self::from_entries(entries)
            },
            Json::Array(items) => {
                proof {
                    Json::lemma_array_model(*items);
                }
                let entries = number_items(items);
                Self::from_entries(&entries)
            },
            _ => {
                let entries: Vec<(String, Json)> = Vec::new();
                assert(entries.deep_view() =~= Seq::empty());
                Self::from_entries(&entries)
            },
        }
    }
}

} // verus!
