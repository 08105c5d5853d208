use vstd::prelude::*;

verus! {

/// The parameters of the one offer this service requests: an unrestricted
/// amount, a fixed description, empty issuer and label, an optional absolute
/// expiry, and no quantity limit. Every recurrence field of the request is
/// left disabled, and the offer is not single-use.
pub struct OfferParams {
    pub amount: String,
    pub description: String,
    pub issuer: String,
    pub label: String,
    pub absolute_expiry: Option<u64>,
    pub quantity_max: u64,
}

/// Build the offer request parameters. When the caller asked for an expiry,
/// the absolute expiry is the current Unix time plus the requested duration
/// in seconds; when it did not, the request carries none.
pub fn build_offer_params(expiry_seconds: Option<u32>, now: u64) -> (r: OfferParams)
    requires
        expiry_seconds matches Some(e) ==> now + e <= u64::MAX,
    ensures
        r.amount@ == "any"@,
        r.description@ == "Shopstr username registration"@,
        r.issuer@ == ""@,
        r.label@ == ""@,
        r.quantity_max == 0,
        r.absolute_expiry == match expiry_seconds {
            None => None::<u64>,
            Some(e) => Some((now + e) as u64),
        },
{
    let absolute_expiry = match expiry_seconds {
        None => None,
        Some(e) => Some(now + e as u64),
    };
    OfferParams {
        amount: String::from_str("any"),
        description: String::from_str("Shopstr username registration"),
        issuer: String::from_str(""),
        label: String::from_str(""),
        absolute_expiry,
        quantity_max: 0,
    }
}

} // verus!
