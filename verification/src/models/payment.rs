//! Payment types: gateways, methods, carts, and the Sellix Pay response.

use vstd::prelude::*;

verus! {

/// Represents a product, only by its id and quantity.
/// Used for Sellix Pay carts.
#[derive(Clone, Debug)]
pub struct ProductPayment {
    pub uniqid: String,
    pub unit_quantity: u64,
}

/// Represents a cart for the list of products when using Sellix Pay.
#[derive(Clone, Debug)]
pub struct Cart {
    pub products: Vec<ProductPayment>,
}

/// States how risky a customer is.
#[derive(Clone, Debug)]
pub struct FraudShield {
    pub ip: String,
    pub user_agent: String,
    pub user_language: String,
}

/// All of the payment gateways.
#[derive(Clone, Copy, Debug, PartialEq, Eq, Structural)]
pub enum PaymentGateway {
    Paypal,
    Ethereum,
    BinanceCoin,
    Bitcoin,
    BitcoinCash,
    Litecoin,
    Skrill,
    Stripe,
    PerfectMoney,
    CashApp,
    LexHoldingsGroup,
    Paydash,
    Monero,
    Concordium,
    BitcoinLn,
    Nano,
    Solana,
    Ripple,
    Usdt,
    Usdc,
    Plz,
    Polygon,
    Tron,
    Binance,
}

impl PaymentGateway {
    /// The gateway's name on the wire.
    pub open spec fn spec_as_str(self) -> Seq<char> {
        match self {
            PaymentGateway::Paypal => "PAYPAL"@,
            PaymentGateway::Ethereum => "ETHEREUM"@,
            PaymentGateway::BinanceCoin => "BINANCE_COIN"@,
            PaymentGateway::Bitcoin => "BITCOIN"@,
            PaymentGateway::BitcoinCash => "BITCOIN_CASH"@,
            PaymentGateway::Litecoin => "LITECOIN"@,
            PaymentGateway::Skrill => "SKRILL"@,
            PaymentGateway::Stripe => "STRIPE"@,
            PaymentGateway::PerfectMoney => "PERFECT_MONEY"@,
            PaymentGateway::CashApp => "CASH_APP"@,
            PaymentGateway::LexHoldingsGroup => "LEX_HOLDINGS_GROUP"@,
            PaymentGateway::Paydash => "PAYDASH"@,
            PaymentGateway::Monero => "MONERO"@,
            PaymentGateway::Concordium => "CONCORDIUM"@,
            PaymentGateway::BitcoinLn => "BITCOIN_LN"@,
            PaymentGateway::Nano => "NANO"@,
            PaymentGateway::Solana => "SOLANA"@,
            PaymentGateway::Ripple => "RIPPLE"@,
            PaymentGateway::Usdt => "USDT"@,
            PaymentGateway::Usdc => "USDC"@,
            PaymentGateway::Plz => "PLZ"@,
            PaymentGateway::Polygon => "POLYGON"@,
            PaymentGateway::Tron => "TRON"@,
            PaymentGateway::Binance => "BINANCE"@,
        }
    }

    /// Returns the gateway's name on the wire.
    pub fn as_str(&self) -> (r: &str)
        ensures
            r@ == self.spec_as_str(),
    {
        match self {
            PaymentGateway::Paypal => "PAYPAL",
            PaymentGateway::Ethereum => "ETHEREUM",
            PaymentGateway::BinanceCoin => "BINANCE_COIN",
            PaymentGateway::Bitcoin => "BITCOIN",
            PaymentGateway::BitcoinCash => "BITCOIN_CASH",
            PaymentGateway::Litecoin => "LITECOIN",
            PaymentGateway::Skrill => "SKRILL",
            PaymentGateway::Stripe => "STRIPE",
            PaymentGateway::PerfectMoney => "PERFECT_MONEY",
            PaymentGateway::CashApp => "CASH_APP",
            PaymentGateway::LexHoldingsGroup => "LEX_HOLDINGS_GROUP",
            PaymentGateway::Paydash => "PAYDASH",
            PaymentGateway::Monero => "MONERO",
            PaymentGateway::Concordium => "CONCORDIUM",
            PaymentGateway::BitcoinLn => "BITCOIN_LN",
            PaymentGateway::Nano => "NANO",
            PaymentGateway::Solana => "SOLANA",
            PaymentGateway::Ripple => "RIPPLE",
            PaymentGateway::Usdt => "USDT",
            PaymentGateway::Usdc => "USDC",
            PaymentGateway::Plz => "PLZ",
            PaymentGateway::Polygon => "POLYGON",
            PaymentGateway::Tron => "TRON",
            PaymentGateway::Binance => "BINANCE",
        }
    }
}

/// All of the possible payment methods.
#[derive(Clone, Copy, Debug, PartialEq, Eq, Structural)]
pub enum PaymentMethod {
    Bancontact,
    Eps,
    Trustly,
    Mercado,
    Paylater,
    Sepa,
    Venmo,
    Blik,
    Giropay,
    Ideal,
    Mybank,
    Sofort,
    Przelewy24,
    Credit,
}

/// How a discount is applied: as a percentage of the price or as a fixed
/// amount.
#[derive(Clone, Copy, Debug, PartialEq, Eq, Structural)]
pub enum DiscountType {
    Percentage,
    Fixed,
}

impl DiscountType {
    /// The discount type's name on the wire.
    pub open spec fn spec_as_str(self) -> Seq<char> {
        match self {
            DiscountType::Percentage => "PERCENTAGE"@,
            DiscountType::Fixed => "FIXED"@,
        }
    }

    /// Returns the discount type's name on the wire.
    pub fn as_str(&self) -> (r: &str)
        ensures
            r@ == self.spec_as_str(),
    {
        match self {
            DiscountType::Percentage => "PERCENTAGE",
            DiscountType::Fixed => "FIXED",
        }
    }
}

/// Represents the response from a successful Sellix Pay payment creation.
#[derive(Clone, Debug)]
pub struct SellixPaymentResponse {
    pub url: String,
    pub uniqid: String,
}

} // verus!
