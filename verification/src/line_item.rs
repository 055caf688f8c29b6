//! Line items of a receipt and their classification by role.
//!
//! A line item arrives as a list of typed fields. Its classification is a
//! record with one slot per known role; each slot holds the last field of
//! the list that carries the role, and fields of any other type leave no
//! trace.

use vstd::prelude::*;
use crate::detection::{Detection, DetectionView, TypeClass, TypeClassView};
use crate::field_response::{FieldResponse, FieldResponseView};
use crate::number::number_or_zero;
use crate::text::{equals, owned_or_empty};

verus! {

/// One typed field of a line item.
#[derive(Clone, Debug, PartialEq, Eq)]
pub struct ExpenseField {
    pub page_number: i64,
    pub line_item_expense_field_type: TypeClass,
    pub value_detection: Detection,
}

/// What an [`ExpenseField`] holds.
pub struct ExpenseFieldView {
    pub page_number: i64,
    pub line_item_expense_field_type: TypeClassView,
    pub value_detection: DetectionView,
}

impl View for ExpenseField {
    type V = ExpenseFieldView;

    open spec fn view(&self) -> ExpenseFieldView {
        ExpenseFieldView {
            page_number: self.page_number,
            line_item_expense_field_type: self.line_item_expense_field_type@,
            value_detection: self.value_detection@,
        }
    }
}

impl DeepView for ExpenseField {
    type V = ExpenseFieldView;

    open spec fn deep_view(&self) -> ExpenseFieldView {
        self@
    }
}

/// One purchased item: its fields in the order of the analysis.
#[derive(Clone, Debug, PartialEq, Eq)]
pub struct LineItem {
    pub line_item_expense_fields: Vec<ExpenseField>,
}

/// What a [`LineItem`] holds.
pub struct LineItemView {
    pub line_item_expense_fields: Seq<ExpenseFieldView>,
}

impl View for LineItem {
    type V = LineItemView;

    open spec fn view(&self) -> LineItemView {
        LineItemView { line_item_expense_fields: self.line_item_expense_fields.deep_view() }
    }
}

impl DeepView for LineItem {
    type V = LineItemView;

    open spec fn deep_view(&self) -> LineItemView {
        self@
    }
}

/// A numbered group of line items.
#[derive(Clone, Debug, PartialEq, Eq)]
pub struct Group {
    pub line_item_group_index: i64,
    pub line_items: Vec<LineItem>,
}

/// What a [`Group`] holds.
pub struct GroupView {
    pub line_item_group_index: i64,
    pub line_items: Seq<LineItemView>,
}

impl View for Group {
    type V = GroupView;

    open spec fn view(&self) -> GroupView {
        GroupView {
            line_item_group_index: self.line_item_group_index,
            line_items: self.line_items.deep_view(),
        }
    }
}

impl DeepView for Group {
    type V = GroupView;

    open spec fn deep_view(&self) -> GroupView {
        self@
    }
}

/// The roles a field of a line item can play in the classified record.
#[derive(Clone, Copy, Debug, PartialEq, Eq, Structural)]
pub enum Role {
    ProductCode,
    Item,
    Price,
    ExpenseRow,
}

impl Role {
    /// The type name under which an analysis files fields of this role.
    pub open spec fn name(self) -> Seq<char> {
        match self {
            Role::ProductCode => "PRODUCT_CODE"@,
            Role::Item => "ITEM"@,
            Role::Price => "PRICE"@,
            Role::ExpenseRow => "EXPENSE_ROW"@,
        }
    }

    /// The role whose type name is exactly `name`, if there is one.
    pub open spec fn of(name: Seq<char>) -> Option<Role> {
        if name == Role::ProductCode.name() {
            Some(Role::ProductCode)
        } else if name == Role::Item.name() {
            Some(Role::Item)
        } else if name == Role::Price.name() {
            Some(Role::Price)
        } else if name == Role::ExpenseRow.name() {
            Some(Role::ExpenseRow)
        } else {
            None
        }
    }

    /// No role has an empty name, and no two roles share a name.
    pub proof fn lemma_names_differ()
        ensures
            forall|role: Role| (#[trigger] role.name()).len() > 0,
            forall|a: Role, b: Role| a != b ==> #[trigger] a.name() != #[trigger] b.name(),
    {
        reveal_strlit("PRODUCT_CODE");
        reveal_strlit("ITEM");
        reveal_strlit("PRICE");
        reveal_strlit("EXPENSE_ROW");
        assert(Role::ProductCode.name().len() == 12);
        assert(Role::Item.name().len() == 4);
        assert(Role::Price.name().len() == 5);
        assert(Role::ExpenseRow.name().len() == 11);
    }

    /// Every role is found again under its own name, and a name found among
    /// the roles is the name of the role it was found under.
    pub proof fn lemma_of_inverts_name(name: Seq<char>, role: Role)
        ensures
            Role::of(name) == Some(role) <==> name == role.name(),
    {
        Role::lemma_names_differ();
    }

    /// Looks a type name up among the known roles. The match is exact:
    /// case, spacing and length all count.
    pub fn parse(name: &str) -> (role: Option<Role>)
        ensures
            role == Role::of(name@),
    {
        if equals(name, "PRODUCT_CODE") {
            Some(Role::ProductCode)
        } else if equals(name, "ITEM") {
            Some(Role::Item)
        } else if equals(name, "PRICE") {
            Some(Role::Price)
        } else if equals(name, "EXPENSE_ROW") {
            Some(Role::ExpenseRow)
        } else {
            None
        }
    }
}

/// The classification of one line item: a slot for each role.
#[derive(Clone, Debug, PartialEq, Eq)]
pub struct ExpenseFieldResponse {
    pub product_code: Option<FieldResponse>,
    pub item: Option<FieldResponse>,
    pub price: Option<FieldResponse>,
    pub expense_row: Option<FieldResponse>,
}

/// What an [`ExpenseFieldResponse`] holds.
pub struct ExpenseFieldResponseView {
    pub product_code: Option<FieldResponseView>,
    pub item: Option<FieldResponseView>,
    pub price: Option<FieldResponseView>,
    pub expense_row: Option<FieldResponseView>,
}

impl View for ExpenseFieldResponse {
    type V = ExpenseFieldResponseView;

    open spec fn view(&self) -> ExpenseFieldResponseView {
        ExpenseFieldResponseView {
            product_code: self.product_code.deep_view(),
            item: self.item.deep_view(),
            price: self.price.deep_view(),
            expense_row: self.expense_row.deep_view(),
        }
    }
}

impl DeepView for ExpenseFieldResponse {
    type V = ExpenseFieldResponseView;

    open spec fn deep_view(&self) -> ExpenseFieldResponseView {
        self@
    }
}

impl ExpenseFieldResponseView {
    /// The record with every slot empty.
    pub open spec fn empty() -> ExpenseFieldResponseView {
        ExpenseFieldResponseView { product_code: None, item: None, price: None, expense_row: None }
    }

    /// What the slot of `role` holds.
    pub open spec fn slot(self, role: Role) -> Option<FieldResponseView> {
        match role {
            Role::ProductCode => self.product_code,
            Role::Item => self.item,
            Role::Price => self.price,
            Role::ExpenseRow => self.expense_row,
        }
    }

    /// The record with `value` in the slot of `role` and the other slots as
    /// they are.
    pub open spec fn with(self, role: Role, value: FieldResponseView) -> ExpenseFieldResponseView {
        match role {
            Role::ProductCode => ExpenseFieldResponseView { product_code: Some(value), ..self },
            Role::Item => ExpenseFieldResponseView { item: Some(value), ..self },
            Role::Price => ExpenseFieldResponseView { price: Some(value), ..self },
            Role::ExpenseRow => ExpenseFieldResponseView { expense_row: Some(value), ..self },
        }
    }
}

impl ExpenseFieldResponse {
    /// A record with every slot empty.
    pub fn new() -> (record: ExpenseFieldResponse)
        ensures
            record@ == ExpenseFieldResponseView::empty(),
    {
        ExpenseFieldResponse { product_code: None, item: None, price: None, expense_row: None }
    }

    /// Puts `value` in the slot of `role`, over whatever the slot held.
    pub fn set(&mut self, role: Role, value: FieldResponse)
        ensures
            final(self)@ == old(self)@.with(role, value@),
    {
        match role {
            Role::ProductCode => {
                self.product_code = Some(value);
            },
            Role::Item => {
                self.item = Some(value);
            },
            Role::Price => {
                self.price = Some(value);
            },
            Role::ExpenseRow => {
                self.expense_row = Some(value);
            },
        }
    }
}

/// The classification of one line item, as the client sees it.
#[derive(Clone, Debug, PartialEq, Eq)]
pub struct LineItemResponse {
    pub line_item_expense_fields: ExpenseFieldResponse,
}

/// What a [`LineItemResponse`] holds.
pub struct LineItemResponseView {
    pub line_item_expense_fields: ExpenseFieldResponseView,
}

impl View for LineItemResponse {
    type V = LineItemResponseView;

    open spec fn view(&self) -> LineItemResponseView {
        LineItemResponseView { line_item_expense_fields: self.line_item_expense_fields@ }
    }
}

impl DeepView for LineItemResponse {
    type V = LineItemResponseView;

    open spec fn deep_view(&self) -> LineItemResponseView {
        self@
    }
}

/// A group of classified line items under the number of the group they
/// came from.
#[derive(Clone, Debug, PartialEq, Eq)]
pub struct GroupResponse {
    pub line_item_group_index: i64,
    pub line_items: Vec<LineItemResponse>,
}

/// What a [`GroupResponse`] holds.
pub struct GroupResponseView {
    pub line_item_group_index: i64,
    pub line_items: Seq<LineItemResponseView>,
}

impl View for GroupResponse {
    type V = GroupResponseView;

    open spec fn view(&self) -> GroupResponseView {
        GroupResponseView {
            line_item_group_index: self.line_item_group_index,
            line_items: self.line_items.deep_view(),
        }
    }
}

impl DeepView for GroupResponse {
    type V = GroupResponseView;

    open spec fn deep_view(&self) -> GroupResponseView {
        self@
    }
}

impl ExpenseFieldView {
    /// The role this field plays, if its type name is that of a known role.
    pub open spec fn role(self) -> Option<Role> {
        Role::of(self.line_item_expense_field_type.name())
    }

    /// What this field puts in a slot: the confidence in its type tag, the
    /// confidence in its value and the value's text, with zero and empty
    /// text standing in for what is missing.
    pub open spec fn value(self) -> FieldResponseView {
        FieldResponseView {
            confidence_key: self.line_item_expense_field_type.score(),
            confidence_value: self.value_detection.score(),
            value: self.value_detection.content(),
        }
    }
}

/// What the slot of `role` holds once `fields` are classified: the value of
/// the last field that plays the role, or nothing if no field does.
pub open spec fn slot_value(fields: Seq<ExpenseFieldView>, role: Role) -> Option<FieldResponseView>
    decreases fields.len(),
{
    if fields.len() == 0 {
        None
    } else if fields.last().role() == Some(role) {
        Some(fields.last().value())
    } else {
        slot_value(fields.drop_last(), role)
    }
}

/// The classified record of a list of fields.
pub open spec fn classified(fields: Seq<ExpenseFieldView>) -> ExpenseFieldResponseView {
    ExpenseFieldResponseView {
        product_code: slot_value(fields, Role::ProductCode),
        item: slot_value(fields, Role::Item),
        price: slot_value(fields, Role::Price),
        expense_row: slot_value(fields, Role::ExpenseRow),
    }
}

impl LineItemView {
    /// The line item with its fields classified.
    pub open spec fn projected(self) -> LineItemResponseView {
        LineItemResponseView { line_item_expense_fields: classified(self.line_item_expense_fields) }
    }
}

impl GroupView {
    /// The group with each of its line items classified, in order.
    pub open spec fn projected(self) -> GroupResponseView {
        GroupResponseView {
            line_item_group_index: self.line_item_group_index,
            line_items: Seq::new(self.line_items.len(), |i: int| self.line_items[i].projected()),
        }
    }
}

/// The projection of each group, in the order of the groups.
pub open spec fn projected(groups: Seq<GroupView>) -> Seq<GroupResponseView> {
    Seq::new(groups.len(), |i: int| groups[i].projected())
}

/// Projection keeps the shape of its input: as many groups, each under the
/// number it had, with as many line items, and the record at each position
/// is the classification of the line item at that position.
pub proof fn lemma_projection_keeps_shape(groups: Seq<GroupView>)
    ensures
        projected(groups).len() == groups.len(),
        forall|g: int|
            0 <= g < groups.len() ==> {
                &&& (#[trigger] projected(groups)[g]).line_item_group_index
                    == groups[g].line_item_group_index
                &&& projected(groups)[g].line_items.len() == groups[g].line_items.len()
            },
        forall|g: int, i: int|
            0 <= g < groups.len() && 0 <= i < groups[g].line_items.len() ==> {
                #[trigger] projected(groups)[g].line_items[i]
                    == groups[g].line_items[i].projected()
            },
{
}

/// Where several fields play one role, the last of them fills the slot:
/// if the field at `at` plays `role` and no field after it does, the slot
/// of `role` holds the value of the field at `at`.
pub proof fn lemma_last_field_of_role_wins(fields: Seq<ExpenseFieldView>, role: Role, at: int)
    requires
        0 <= at < fields.len(),
        fields[at].role() == Some(role),
        forall|later: int| at < later < fields.len() ==> fields[later].role() != Some(role),
    ensures
        slot_value(fields, role) == Some(fields[at].value()),
        classified(fields).slot(role) == Some(fields[at].value()),
    decreases fields.len(),
{
    if fields.last().role() != Some(role) {
        lemma_last_field_of_role_wins(fields.drop_last(), role, at);
    }
}

/// A slot is empty exactly when no field plays its role.
pub proof fn lemma_slot_empty_iff_role_absent(fields: Seq<ExpenseFieldView>, role: Role)
    ensures
        slot_value(fields, role) is None <==> forall|i: int|
            0 <= i < fields.len() ==> fields[i].role() != Some(role),
        classified(fields).slot(role) == slot_value(fields, role),
    decreases fields.len(),
{
    if fields.len() > 0 {
        lemma_slot_empty_iff_role_absent(fields.drop_last(), role);
        if fields.last().role() != Some(role) {
            assert forall|i: int| 0 <= i < fields.drop_last().len() implies fields.drop_last()[i]
                == fields[i] by {}
        }
    }
}

/// A line item with exactly one field of each role has every slot filled,
/// each from the field that plays the slot's role.
pub proof fn lemma_one_field_per_role_fills_every_slot(
    fields: Seq<ExpenseFieldView>,
    product_code: int,
    item: int,
    price: int,
    expense_row: int,
)
    requires
        0 <= product_code < fields.len(),
        0 <= item < fields.len(),
        0 <= price < fields.len(),
        0 <= expense_row < fields.len(),
        forall|i: int|
            0 <= i < fields.len() ==> (fields[i].role() == Some(Role::ProductCode) <==> i
                == product_code),
        forall|i: int| 0 <= i < fields.len() ==> (fields[i].role() == Some(Role::Item) <==> i == item),
        forall|i: int|
            0 <= i < fields.len() ==> (fields[i].role() == Some(Role::Price) <==> i == price),
        forall|i: int|
            0 <= i < fields.len() ==> (fields[i].role() == Some(Role::ExpenseRow) <==> i
                == expense_row),
    ensures
        classified(fields) == (ExpenseFieldResponseView {
            product_code: Some(fields[product_code].value()),
            item: Some(fields[item].value()),
            price: Some(fields[price].value()),
            expense_row: Some(fields[expense_row].value()),
        }),
{
    lemma_last_field_of_role_wins(fields, Role::ProductCode, product_code);
    lemma_last_field_of_role_wins(fields, Role::Item, item);
    lemma_last_field_of_role_wins(fields, Role::Price, price);
    lemma_last_field_of_role_wins(fields, Role::ExpenseRow, expense_row);
}

/// A field that plays no known role leaves no trace: the record is the one
/// the line item would have without the field.
pub proof fn lemma_unrecognized_field_is_dropped(fields: Seq<ExpenseFieldView>, at: int)
    requires
        0 <= at < fields.len(),
        fields[at].role() is None,
    ensures
        classified(fields.remove(at)) == classified(fields),
{
    lemma_slot_ignores_other_roles(fields, at, Role::ProductCode);
    lemma_slot_ignores_other_roles(fields, at, Role::Item);
    lemma_slot_ignores_other_roles(fields, at, Role::Price);
    lemma_slot_ignores_other_roles(fields, at, Role::ExpenseRow);
}

/// A slot does not depend on a field that plays another role or none.
pub proof fn lemma_slot_ignores_other_roles(fields: Seq<ExpenseFieldView>, at: int, role: Role)
    requires
        0 <= at < fields.len(),
        fields[at].role() != Some(role),
    ensures
        slot_value(fields.remove(at), role) == slot_value(fields, role),
    decreases fields.len(),
{
    if at == fields.len() - 1 {
        assert(fields.remove(at) =~= fields.drop_last());
    } else {
        assert(fields.remove(at).last() == fields.last());
        assert(fields.remove(at).drop_last() =~= fields.drop_last().remove(at));
        if fields.last().role() != Some(role) {
            lemma_slot_ignores_other_roles(fields.drop_last(), at, role);
        }
    }
}

/// The value a field puts in a slot.
pub fn field_value(field: &ExpenseField) -> (value: FieldResponse)
    ensures
        value@ == field@.value(),
{
    FieldResponse {
        confidence_key: number_or_zero(&field.line_item_expense_field_type.confidence),
        confidence_value: number_or_zero(&field.value_detection.confidence),
        value: owned_or_empty(&field.value_detection.text),
    }
}

/// The role a field plays, if any.
pub fn field_role(field: &ExpenseField) -> (role: Option<Role>)
    ensures
        role == field@.role(),
{
    match &field.line_item_expense_field_type.text {
        Some(name) => Role::parse(name.as_str()),
        None => {
            proof {
                Role::lemma_names_differ();
            }
            None
        },
    }
}

/// Classifies the fields of one line item.
///
/// Each slot of the record holds the value of the last field that plays
/// its role; a slot whose role no field plays stays empty, and a field
/// that plays no known role is passed over.
pub fn classify(line_item: &LineItem) -> (out: LineItemResponse)
    ensures
        out@ == line_item@.projected(),
{
    let fields = &line_item.line_item_expense_fields;
    let mut record = ExpenseFieldResponse::new();
    let mut i: usize = 0;
    while i < fields.len()
        invariant
            i <= fields@.len(),
            record@ == classified(fields.deep_view().take(i as int)),
        decreases fields@.len() - i,
    {
        let field = &fields[i];
        proof {
            let seen = fields.deep_view().take(i + 1);
            assert(seen.drop_last() =~= fields.deep_view().take(i as int));
            assert(seen.last() == field@);
        }
        match field_role(field) {
            Some(role) => {
                record.set(role, field_value(field));
            },
            None => {},
        }
        i += 1;
    }
    proof {
        assert(fields.deep_view().take(i as int) =~= fields.deep_view());
    }
    LineItemResponse { line_item_expense_fields: record }
}

/// Classifies every line item of one group and keeps the group's number.
pub fn process_group(group: &Group) -> (out: GroupResponse)
    ensures
        out@ == group@.projected(),
{
    let mut line_items: Vec<LineItemResponse> = Vec::new();
    let mut i: usize = 0;
    while i < group.line_items.len()
        invariant
            i <= group.line_items@.len(),
            line_items@.len() == i,
            forall|j: int| 0 <= j < i ==> #[trigger] line_items@[j]@ == group.line_items@[j]@.projected(),
        decreases group.line_items@.len() - i,
    {
        line_items.push(classify(&group.line_items[i]));
        i += 1;
    }
    proof {
        assert(line_items.deep_view() =~= group@.projected().line_items);
    }
    GroupResponse { line_item_group_index: group.line_item_group_index, line_items }
}

/// Classifies the line items of every group.
///
/// The result has one group per input group, in the same order and under
/// the same number, and within each group one record per line item, again
/// in the same order.
pub fn process(line_item_groups: &Vec<Group>) -> (out: Vec<GroupResponse>)
    ensures
        out.deep_view() == projected(line_item_groups.deep_view()),
        out@.len() == line_item_groups@.len(),
        forall|g: int|
            0 <= g < line_item_groups@.len() ==> {
                &&& (#[trigger] out@[g]).line_item_group_index
                    == line_item_groups@[g].line_item_group_index
                &&& out@[g].line_items@.len() == line_item_groups@[g].line_items@.len()
            },
{
    let mut out: Vec<GroupResponse> = Vec::new();
    let mut i: usize = 0;
    while i < line_item_groups.len()
        invariant
            i <= line_item_groups@.len(),
            out@.len() == i,
            forall|j: int| 0 <= j < i ==> #[trigger] out@[j]@ == line_item_groups@[j]@.projected(),
        decreases line_item_groups@.len() - i,
    {
        out.push(process_group(&line_item_groups[i]));
        i += 1;
    }
    proof {
        assert(out.deep_view() =~= projected(line_item_groups.deep_view()));
        assert forall|g: int| 0 <= g < line_item_groups@.len() implies {
            &&& (#[trigger] out@[g]).line_item_group_index
                == line_item_groups@[g].line_item_group_index
            &&& out@[g].line_items@.len() == line_item_groups@[g].line_items@.len()
        } by {
            assert(out@[g]@ == line_item_groups@[g]@.projected());
            assert(out@[g]@.line_items.len() == out@[g].line_items@.len());
            assert(line_item_groups@[g]@.projected().line_items.len()
                == line_item_groups@[g].line_items@.len());
        }
    }
    out
}

} // verus!
