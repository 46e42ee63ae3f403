//! Parts of the shop's full order document that the queue does not look
//! into. They are kept as plain data, so that a caller who has the whole
//! document can hold it in the shop's own terms.

use vstd::prelude::*;

verus! {

/// The language the buyer shopped in.
#[derive(Debug, Copy, Clone, PartialEq, Eq, Structural)]
pub enum BuyerLanguage {
    /// `en` in the document.
    English,
}

/// The kind of sales channel.
#[derive(Debug, Copy, Clone, PartialEq, Eq, Structural)]
pub enum ChannelInfoType {
    /// `WEB` in the document.
    Web,
    /// `POS` in the document.
    Pos,
    /// `EBAY` in the document.
    Ebay,
    /// `OTHER_PLATFORM` in the document.
    OtherPlatform,
    /// `WIX_APP_STORE` in the document.
    WixAppStore,
}

/// Who entered the order.
#[derive(Debug, Copy, Clone, PartialEq, Eq, Structural)]
pub enum EnteredByIdentityType {
    /// `USER` in the document.
    User,
    /// `MEMBER` in the document.
    Member,
    /// `CONTACT` in the document.
    Contact,
}

/// The kind of tax identifier.
#[derive(Debug, Copy, Clone, PartialEq, Eq, Structural)]
pub enum VatIdType {
    /// `CPF` in the document.
    Cpf,
    /// `CNJP` in the document.
    Cnjp,
}

/// What the buyer is to the shop.
#[derive(Debug, Copy, Clone, PartialEq, Eq, Structural)]
pub enum IdentityType {
    /// `MEMBER` in the document.
    Member,
    /// `CONTACT` in the document.
    Contact,
    /// `ADMIN` in the document.
    Admin,
    /// `VISITOR` in the document.
    Visitor,
}

/// How far the order has been fulfilled.
#[derive(Debug, Copy, Clone, PartialEq, Eq, Structural)]
pub enum FulfillmentStatus {
    /// `NOT_FULFILLED` in the document.
    NotFulfilled,
    /// `FULFILLED` in the document.
    Fulfilled,
    /// `CANCELED` in the document.
    Canceled,
    /// `PARTIALLY_FULFILLED` in the document.
    PartiallyFulfilled,
}

/// Something that happened to the order.
#[derive(Debug, Copy, Clone, PartialEq, Eq, Structural)]
pub enum ActivityType {
    /// `MERCHANT_COMMENT` in the document.
    MerchantComment,
    /// `ORDER_PLACED` in the document.
    OrderPlaced,
    /// `ORDER_PAID` in the document.
    OrderPaid,
    /// `ORDER_FULFILLED` in the document.
    OrderFulfilled,
    /// `ORDER_NOT_FULFILLED` in the document.
    OrderNotFulfilled,
    /// `DOWNLOAD_LINK_SENT` in the document.
    DownloadLinkSent,
    /// `PICKUP_READY_EMAIL_SENT` in the document.
    PickupReadyEmailSent,
    /// `TRACKING_NUMBER_ADDED` in the document.
    TrackingNumberAdded,
    /// `TRACKING_NUMBER_EDITED` in the document.
    TrackingNumberEdited,
    /// `TRACKING_LINK_WAS_SET` in the document.
    TrackingLinkWasSet,
    /// `SHIPPING_CONFIRMATION_EMAIL_SENT` in the document.
    ShippingConfirmationEmailSent,
    /// `INVOICE_WAS_SET` in the document.
    InvoiceWasSet,
    /// `INVOICE_WAS_REMOVED` in the document.
    InvoiceWasRemoved,
    /// `INVOICE_WAS_SENT` in the document.
    InvoiceWasSent,
}

/// How far the order has been paid.
#[derive(Debug, Copy, Clone, PartialEq, Eq, Structural)]
pub enum PaymentStatus {
    /// `NOT_PAID` in the document.
    NotPaid,
    /// `PAID` in the document.
    Paid,
    /// `PARTIALLY_REFUNDED` in the document.
    PartiallyRefunded,
    /// `FULLY_REFUNDED` in the document.
    FullyRefunded,
}

/// The kind of thing a line item is.
#[derive(Debug, Copy, Clone, PartialEq, Eq, Structural)]
pub enum LineItemType {
    /// `DIGITAL` in the document.
    Digital,
    /// `PHYSICAL` in the document.
    Physical,
    /// `CUSTOM_AMOUNT_ITEM` in the document.
    CustomAmountItem,
}

/// The kind of media shown for a line item.
#[derive(Debug, Copy, Clone, PartialEq, Eq, Structural)]
pub enum OrderMediaItemType {
    /// `IMAGE` in the document.
    Image,
}

/// The unit in which weights are given.
#[derive(Debug, Copy, Clone, PartialEq, Eq, Structural)]
pub enum WeightUnit {
    /// `KG` in the document.
    Kg,
    /// `LB` in the document.
    Lb,
}

/// The interval at which a subscription renews.
#[derive(Debug, Copy, Clone, PartialEq, Eq, Structural)]
pub enum SubscroptionFrequency {
    /// `DAY` in the document.
    Day,
    /// `WEEK` in the document.
    Week,
    /// `MONTH` in the document.
    Month,
    /// `YEAR` in the document.
    Year,
}

/// How a shipment can be followed.
#[derive(Debug, Clone, PartialEq, Eq)]
pub struct TrackingInfo {
    pub tracking_number: String,
    pub shipping_provider: String,
    pub tracking_link: String,
}

/// A line item that a fulfillment covers, by its index in the order.
#[derive(Debug, Clone, PartialEq, Eq)]
pub struct FulfillmentLineItem {
    pub index: u32,
    pub quantity: Option<u32>,
}

/// The sales channel an order came through.
#[derive(Debug, Clone, PartialEq, Eq)]
pub struct ChannelInfo {
    pub external_order_id: Option<String>,
    pub external_order_url: Option<String>,
    pub kind: ChannelInfoType,
}

/// Street and house number.
#[derive(Debug, Clone, PartialEq, Eq)]
pub struct StreetAddress {
    pub name: String,
    pub number: String,
}

/// A postal address.
#[derive(Debug, Clone, PartialEq, Eq)]
pub struct Address {
    pub formatted: Option<String>,
    pub city: String,
    pub country: String,
    pub address_line: String,
    pub address_line_2: Option<String>,
    pub street_address: Option<StreetAddress>,
    pub postal_code: String,
    pub subdivision: String,
}

/// A tax identifier.
#[derive(Debug, Clone, PartialEq, Eq)]
pub struct VatId {
    pub number: String,
    pub kind: VatIdType,
}

/// Who placed the order.
#[derive(Debug, Clone, PartialEq, Eq)]
pub struct BuyerInfo {
    pub id: String,
    pub email: String,
    pub first_name: String,
    pub last_name: String,
    pub phone: Option<String>,
    pub identity_type: IdentityType,
}

/// Where and by whom an order is picked up.
#[derive(Debug, Clone, PartialEq, Eq)]
pub struct PickupDetails {
    pub pickup_instructions: String,
    pub pickup_address: Address,
    pub first_name: String,
    pub last_name: String,
    pub email: String,
    pub phone: String,
}

/// What shipping costs, as the shop words it.
#[derive(Debug, Clone, PartialEq, Eq)]
pub struct ShipmentPriceData {
    pub price: String,
    pub tax_included_in_price: bool,
}

/// A coupon that was redeemed.
#[derive(Debug, Clone, PartialEq, Eq)]
pub struct AppliedCoupon {
    pub code: String,
    pub coupon_id: String,
    pub name: String,
}

/// A discount on the order.
#[derive(Debug, Clone, PartialEq, Eq)]
pub struct Discount {
    pub applied_coupon: AppliedCoupon,
}

/// How a subscription renews.
#[derive(Debug, Clone, PartialEq, Eq)]
pub struct SubscriptionSettings {
    pub frequency: SubscroptionFrequency,
    pub auto_renewal: bool,
    pub billing_cycles: u32,
}

} // verus!
