//! The order document as the shop sends it, reduced to what the queue shows.
//!
//! Every type here is plain data. Each has a view that replaces strings by
//! their characters and vectors by sequences, and a `clone` that is proved to
//! keep that view.

use vstd::prelude::*;

verus! {

/// The number of an order: unique, assigned by the shop, never reused.
#[derive(Debug, Copy, Clone, Hash, PartialEq, Eq, PartialOrd, Ord, Structural)]
pub struct OrderNumber(pub i32);

impl View for OrderNumber {
    type V = int;

    open spec fn view(&self) -> int {
        self.0 as int
    }
}

impl DeepView for OrderNumber {
    type V = int;

    open spec fn deep_view(&self) -> int {
        self@
    }
}

impl OrderNumber {
    /// Wraps a raw order number.
    pub fn new(number: i32) -> (res: OrderNumber)
        ensures
            res@ == number,
    {
        OrderNumber(number)
    }

    /// The raw order number.
    pub fn get(&self) -> (res: i32)
        ensures
            res == self@,
    {
        self.0
    }
}

/// The free-form field a buyer fills in at checkout.
#[derive(Debug, PartialEq, Eq)]
pub struct CustomField {
    pub value: String,
    pub title: String,
}

/// What a [`CustomField`] holds.
pub struct CustomFieldView {
    pub value: Seq<char>,
    pub title: Seq<char>,
}

impl View for CustomField {
    type V = CustomFieldView;

    open spec fn view(&self) -> CustomFieldView {
        CustomFieldView { value: self.value@, title: self.title@ }
    }
}

impl DeepView for CustomField {
    type V = CustomFieldView;

    open spec fn deep_view(&self) -> CustomFieldView {
        self@
    }
}

impl Clone for CustomField {
    fn clone(&self) -> (res: Self)
        ensures
            res@ == self@,
    {
        CustomField { value: self.value.clone(), title: self.title.clone() }
    }
}

/// A text field attached to one line item.
#[derive(Debug, PartialEq, Eq)]
pub struct CustomTextField {
    pub title: String,
    pub value: String,
}

/// What a [`CustomTextField`] holds.
pub struct CustomTextFieldView {
    pub title: Seq<char>,
    pub value: Seq<char>,
}

impl View for CustomTextField {
    type V = CustomTextFieldView;

    open spec fn view(&self) -> CustomTextFieldView {
        CustomTextFieldView { title: self.title@, value: self.value@ }
    }
}

impl DeepView for CustomTextField {
    type V = CustomTextFieldView;

    open spec fn deep_view(&self) -> CustomTextFieldView {
        self@
    }
}

impl Clone for CustomTextField {
    fn clone(&self) -> (res: Self)
        ensures
            res@ == self@,
    {
        CustomTextField { title: self.title.clone(), value: self.value.clone() }
    }
}

/// One choice made for a line item, such as `Promo Card: Yes`.
#[derive(Debug, PartialEq, Eq)]
pub struct OrderLineItemOption {
    pub option: String,
    pub selection: String,
}

/// What an [`OrderLineItemOption`] holds.
pub struct OrderLineItemOptionView {
    pub option: Seq<char>,
    pub selection: Seq<char>,
}

impl View for OrderLineItemOption {
    type V = OrderLineItemOptionView;

    open spec fn view(&self) -> OrderLineItemOptionView {
        OrderLineItemOptionView { option: self.option@, selection: self.selection@ }
    }
}

impl DeepView for OrderLineItemOption {
    type V = OrderLineItemOptionView;

    open spec fn deep_view(&self) -> OrderLineItemOptionView {
        self@
    }
}

impl Clone for OrderLineItemOption {
    fn clone(&self) -> (res: Self)
        ensures
            res@ == self@,
    {
        OrderLineItemOption { option: self.option.clone(), selection: self.selection.clone() }
    }
}

/// The picture shown for a line item.
#[derive(Debug, PartialEq, Eq)]
pub struct OrderMediaItem {
    pub alt_text: Option<String>,
    pub id: String,
    pub src: String,
}

/// What an [`OrderMediaItem`] holds.
pub struct OrderMediaItemView {
    pub alt_text: Option<Seq<char>>,
    pub id: Seq<char>,
    pub src: Seq<char>,
}

impl View for OrderMediaItem {
    type V = OrderMediaItemView;

    open spec fn view(&self) -> OrderMediaItemView {
        OrderMediaItemView {
            alt_text: self.alt_text.deep_view(),
            id: self.id@,
            src: self.src@,
        }
    }
}

impl DeepView for OrderMediaItem {
    type V = OrderMediaItemView;

    open spec fn deep_view(&self) -> OrderMediaItemView {
        self@
    }
}

impl Clone for OrderMediaItem {
    fn clone(&self) -> (res: Self)
        ensures
            res@ == self@,
    {
        OrderMediaItem {
            alt_text: self.alt_text.clone(),
            id: self.id.clone(),
            src: self.src.clone(),
        }
    }
}

/// One item of an order.
#[derive(Debug, PartialEq, Eq)]
pub struct OrderLineItem {
    pub index: Option<i64>,
    pub quantity: i64,
    /// The name of the item.
    pub name: String,
    /// The choices made for the item, such as which cards to keep.
    pub options: Vec<OrderLineItemOption>,
    pub custom_text_fields: Option<Vec<CustomTextField>>,
    pub media_item: OrderMediaItem,
    pub notes: Option<String>,
}

/// What an [`OrderLineItem`] holds.
pub struct OrderLineItemView {
    pub index: Option<i64>,
    pub quantity: i64,
    pub name: Seq<char>,
    pub options: Seq<OrderLineItemOptionView>,
    pub custom_text_fields: Option<Seq<CustomTextFieldView>>,
    pub media_item: OrderMediaItemView,
    pub notes: Option<Seq<char>>,
}

impl View for OrderLineItem {
    type V = OrderLineItemView;

    open spec fn view(&self) -> OrderLineItemView {
        OrderLineItemView {
            index: self.index,
            quantity: self.quantity,
            name: self.name@,
            options: self.options.deep_view(),
            custom_text_fields: self.custom_text_fields.deep_view(),
            media_item: self.media_item@,
            notes: self.notes.deep_view(),
        }
    }
}

impl DeepView for OrderLineItem {
    type V = OrderLineItemView;

    open spec fn deep_view(&self) -> OrderLineItemView {
        self@
    }
}

impl Clone for OrderLineItem {
    fn clone(&self) -> (res: Self)
        ensures
            res@ == self@,
    {
        let options = self.options.clone();
        let custom_text_fields = self.custom_text_fields.clone();
        assert(custom_text_fields.deep_view() == self.custom_text_fields.deep_view());
        OrderLineItem {
            index: self.index,
            quantity: self.quantity,
            name: self.name.clone(),
            options,
            custom_text_fields,
            media_item: self.media_item.clone(),
            notes: self.notes.clone(),
        }
    }
}

/// An order as the shop reports it.
#[derive(Debug, PartialEq, Eq)]
pub struct NewOrder {
    pub buyer_note: Option<String>,
    /// The number of the order, unique and incrementing.
    pub order_number: OrderNumber,
    /// The items in this order.
    pub line_items: Vec<OrderLineItem>,
    /// The field in which the buyer is asked for a display name.
    pub custom_field: Option<CustomField>,
}

/// What a [`NewOrder`] holds.
pub struct NewOrderView {
    pub buyer_note: Option<Seq<char>>,
    pub order_number: int,
    pub line_items: Seq<OrderLineItemView>,
    pub custom_field: Option<CustomFieldView>,
}

impl View for NewOrder {
    type V = NewOrderView;

    open spec fn view(&self) -> NewOrderView {
        NewOrderView {
            buyer_note: self.buyer_note.deep_view(),
            order_number: self.order_number@,
            line_items: self.line_items.deep_view(),
            custom_field: self.custom_field.deep_view(),
        }
    }
}

impl DeepView for NewOrder {
    type V = NewOrderView;

    open spec fn deep_view(&self) -> NewOrderView {
        self@
    }
}

impl Clone for NewOrder {
    fn clone(&self) -> (res: Self)
        ensures
            res@ == self@,
    {
        let line_items = self.line_items.clone();
        NewOrder {
            buyer_note: self.buyer_note.clone(),
            order_number: self.order_number,
            line_items,
            custom_field: self.custom_field.clone(),
        }
    }
}

/// Why an order yields no display name.
#[derive(Debug, PartialEq, Eq)]
pub enum TwitchUsernameError {
    /// The custom field is there under another title; its value is kept.
    IncorrectTitleForCustomField(String),
    /// The order has no custom field.
    CustomFieldNotPresent,
}

/// What a [`TwitchUsernameError`] holds.
pub enum TwitchUsernameErrorView {
    IncorrectTitleForCustomField(Seq<char>),
    CustomFieldNotPresent,
}

impl View for TwitchUsernameError {
    type V = TwitchUsernameErrorView;

    open spec fn view(&self) -> TwitchUsernameErrorView {
        match self {
            TwitchUsernameError::IncorrectTitleForCustomField(value) =>
                TwitchUsernameErrorView::IncorrectTitleForCustomField(value@),
            TwitchUsernameError::CustomFieldNotPresent =>
                TwitchUsernameErrorView::CustomFieldNotPresent,
        }
    }
}

impl Clone for TwitchUsernameError {
    fn clone(&self) -> (res: Self)
        ensures
            res@ == self@,
    {
        match self {
            TwitchUsernameError::IncorrectTitleForCustomField(value) =>
                TwitchUsernameError::IncorrectTitleForCustomField(value.clone()),
            TwitchUsernameError::CustomFieldNotPresent => TwitchUsernameError::CustomFieldNotPresent,
        }
    }
}

/// The title under which the custom field carries the buyer's display name.
pub open spec fn twitch_username_title() -> Seq<char> {
    "twitch username"@
}

impl NewOrderView {
    /// The display name that the order carries: the value of its custom
    /// field, provided that field has the recognised title.
    pub open spec fn twitch_username(self) -> Result<Seq<char>, TwitchUsernameErrorView> {
        match self.custom_field {
            None => Err(TwitchUsernameErrorView::CustomFieldNotPresent),
            Some(field) => if field.title == twitch_username_title() {
                Ok(field.value)
            } else {
                Err(TwitchUsernameErrorView::IncorrectTitleForCustomField(field.value))
            },
        }
    }

    /// The display name if there is one, and nothing otherwise.
    pub open spec fn display_name(self) -> Option<Seq<char>> {
        match self.twitch_username() {
            Ok(name) => Some(name),
            Err(_) => None,
        }
    }
}

impl NewOrder {
    /// Reads the buyer's display name out of the custom field.
    pub fn twitch_username(&self) -> (res: Result<String, TwitchUsernameError>)
        ensures
            match res {
                Ok(name) => self@.twitch_username() == Ok::<Seq<char>, TwitchUsernameErrorView>(name@),
                Err(why) => self@.twitch_username() == Err::<Seq<char>, TwitchUsernameErrorView>(why@),
            },
    {
        match &self.custom_field {
            None => Err(TwitchUsernameError::CustomFieldNotPresent),
            Some(field) => {
                let title = String::from_str("twitch username");
                if field.title == title {
                    Ok(field.value.clone())
                } else {
                    Err(TwitchUsernameError::IncorrectTitleForCustomField(field.value.clone()))
                }
            },
        }
    }
}

} // verus!
