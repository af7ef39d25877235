//! The catalogue of closed-form formulas and the table that selects one.

use vstd::prelude::*;

verus! {

/// The model that drives an option's value.
#[derive(Clone, Copy, Debug, PartialEq, Eq, Structural)]
pub enum Model {
    /// Black–Scholes: the underlying is a spot price.
    Spot,
    /// Black-76: the underlying is a forward price.
    Forward,
}

/// The right that an option gives.
#[derive(Clone, Copy, Debug, PartialEq, Eq, Structural)]
pub enum OptionKind {
    Call,
    Put,
}

/// A quantity that the catalogue computes for a model.
#[derive(Clone, Copy, Debug, PartialEq, Eq, Structural)]
pub enum Quantity {
    D1,
    D2,
    Price,
    Delta,
    Gamma,
    Vega,
    Theta,
    Rho,
}

/// One closed-form formula of the catalogue.
#[derive(Clone, Copy, Debug, PartialEq, Eq, Structural)]
pub enum Formula {
    BsD1,
    BsD2,
    BsCallPrice,
    BsPutPrice,
    BsCallDelta,
    BsPutDelta,
    BsGamma,
    BsVega,
    BsCallTheta,
    BsPutTheta,
    BsCallRho,
    BsPutRho,
    BkD1,
    BkD2,
    BkCallPrice,
    BkPutPrice,
    BkCallDelta,
    BkPutDelta,
    BkGamma,
    BkVega,
    BkCallTheta,
    BkPutTheta,
    BkCallRho,
    BkPutRho,
}

/// Whether a quantity differs between a call and a put.
pub open spec fn depends_on_kind(q: Quantity) -> bool {
    match q {
        Quantity::Price | Quantity::Delta | Quantity::Theta | Quantity::Rho => true,
        _ => false,
    }
}

/// The model that a formula belongs to.
pub open spec fn model_of(f: Formula) -> Model {
    match f {
        Formula::BsD1 | Formula::BsD2 | Formula::BsCallPrice | Formula::BsPutPrice
        | Formula::BsCallDelta | Formula::BsPutDelta | Formula::BsGamma | Formula::BsVega
        | Formula::BsCallTheta | Formula::BsPutTheta | Formula::BsCallRho
        | Formula::BsPutRho => Model::Spot,
        _ => Model::Forward,
    }
}

/// The quantity that a formula computes.
pub open spec fn quantity_of(f: Formula) -> Quantity {
    match f {
        Formula::BsD1 | Formula::BkD1 => Quantity::D1,
        Formula::BsD2 | Formula::BkD2 => Quantity::D2,
        Formula::BsCallPrice | Formula::BsPutPrice | Formula::BkCallPrice
        | Formula::BkPutPrice => Quantity::Price,
        Formula::BsCallDelta | Formula::BsPutDelta | Formula::BkCallDelta
        | Formula::BkPutDelta => Quantity::Delta,
        Formula::BsGamma | Formula::BkGamma => Quantity::Gamma,
        Formula::BsVega | Formula::BkVega => Quantity::Vega,
        Formula::BsCallTheta | Formula::BsPutTheta | Formula::BkCallTheta
        | Formula::BkPutTheta => Quantity::Theta,
        Formula::BsCallRho | Formula::BsPutRho | Formula::BkCallRho
        | Formula::BkPutRho => Quantity::Rho,
    }
}

/// The right that a formula is for; `None` where call and put share it.
pub open spec fn kind_of(f: Formula) -> Option<OptionKind> {
    match f {
        Formula::BsCallPrice | Formula::BsCallDelta | Formula::BsCallTheta
        | Formula::BsCallRho | Formula::BkCallPrice | Formula::BkCallDelta
        | Formula::BkCallTheta | Formula::BkCallRho => Some(OptionKind::Call),
        Formula::BsPutPrice | Formula::BsPutDelta | Formula::BsPutTheta
        | Formula::BsPutRho | Formula::BkPutPrice | Formula::BkPutDelta
        | Formula::BkPutTheta | Formula::BkPutRho => Some(OptionKind::Put),
        _ => None,
    }
}

/// The right that a request for `q` on `kind` selects: the kind itself where
/// the quantity tells calls from puts, none where both share one formula.
pub open spec fn selected_kind(q: Quantity, kind: OptionKind) -> Option<OptionKind> {
    if depends_on_kind(q) {
        Some(kind)
    } else {
        None
    }
}

/// The formula that computes `quantity` of a `kind` option under `model`.
pub fn formula(model: Model, kind: OptionKind, quantity: Quantity) -> (f: Formula)
    ensures
        model_of(f) == model,
        quantity_of(f) == quantity,
        kind_of(f) == selected_kind(quantity, kind),
{
    match model {
        Model::Spot => match quantity {
            Quantity::D1 => Formula::BsD1,
            Quantity::D2 => Formula::BsD2,
            Quantity::Gamma => Formula::BsGamma,
            Quantity::Vega => Formula::BsVega,
            Quantity::Price => match kind {
                OptionKind::Call => Formula::BsCallPrice,
                OptionKind::Put => Formula::BsPutPrice,
            },
            Quantity::Delta => match kind {
                OptionKind::Call => Formula::BsCallDelta,
                OptionKind::Put => Formula::BsPutDelta,
            },
            Quantity::Theta => match kind {
                OptionKind::Call => Formula::BsCallTheta,
                OptionKind::Put => Formula::BsPutTheta,
            },
            Quantity::Rho => match kind {
                OptionKind::Call => Formula::BsCallRho,
                OptionKind::Put => Formula::BsPutRho,
            },
        },
        Model::Forward => match quantity {
            Quantity::D1 => Formula::BkD1,
            Quantity::D2 => Formula::BkD2,
            Quantity::Gamma => Formula::BkGamma,
            Quantity::Vega => Formula::BkVega,
            Quantity::Price => match kind {
                OptionKind::Call => Formula::BkCallPrice,
                OptionKind::Put => Formula::BkPutPrice,
            },
            Quantity::Delta => match kind {
                OptionKind::Call => Formula::BkCallDelta,
                OptionKind::Put => Formula::BkPutDelta,
            },
            Quantity::Theta => match kind {
                OptionKind::Call => Formula::BkCallTheta,
                OptionKind::Put => Formula::BkPutTheta,
            },
            Quantity::Rho => match kind {
                OptionKind::Call => Formula::BkCallRho,
                OptionKind::Put => Formula::BkPutRho,
            },
        },
    }
}

/// The pair of formulas that the implied-volatility solver needs for a
/// `kind` option under `model`: its price, and the vega of the same model,
/// which is the price's derivative in the volatility.
pub fn calibration_pair(model: Model, kind: OptionKind) -> (r: (Formula, Formula))
    ensures
        model_of(r.0) == model,
        quantity_of(r.0) == Quantity::Price,
        kind_of(r.0) == Some(kind),
        model_of(r.1) == model,
        quantity_of(r.1) == Quantity::Vega,
        kind_of(r.1) == None::<OptionKind>,
{
    (formula(model, kind, Quantity::Price), formula(model, kind, Quantity::Vega))
}

/// A formula is determined by its model, its quantity and its right: no two
/// formulas of the catalogue share all three, so the table selects exactly one.
pub proof fn lemma_coordinates_identify(f: Formula, g: Formula)
    requires
        model_of(f) == model_of(g),
        quantity_of(f) == quantity_of(g),
        kind_of(f) == kind_of(g),
    ensures
        f == g,
{
}

/// Every formula of the catalogue is reached by the table: requesting its own
/// model and quantity, with its own right where it has one, selects it.
pub proof fn lemma_table_covers(f: Formula, kind: OptionKind)
    requires
        kind_of(f) is None || kind_of(f) == Some(kind),
    ensures
        selected_kind(quantity_of(f), kind) == kind_of(f),
{
}

} // verus!
