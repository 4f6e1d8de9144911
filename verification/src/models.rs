//! The potentials of the supported inflation models, and the factory that
//! builds one from a model name and a table of parameters.

use vstd::prelude::*;
use vstd::string::*;
use crate::params::ParamTable;
use crate::scalar::Scalar;

verus! {

/// The chaotic potential `V = v0 * phi^power`.
#[derive(Clone, Copy, PartialEq, Eq, Structural, Debug)]
pub struct ChaoticPotential {
    pub v0: Scalar,
    pub power: Scalar,
}

/// The natural-inflation potential `V = v0 * (1 - cos(phi / f))`.
#[derive(Clone, Copy, PartialEq, Eq, Structural, Debug)]
pub struct NaturalPotential {
    pub v0: Scalar,
    pub f: Scalar,
}

/// A potential of one of the supported models.
#[derive(Clone, Copy, PartialEq, Eq, Structural, Debug)]
pub enum Potential {
    Chaotic(ChaoticPotential),
    Natural(NaturalPotential),
}

/// The supported models.
#[derive(Clone, Copy, PartialEq, Eq, Structural, Debug)]
pub enum ModelKind {
    Chaotic,
    Natural,
}

/// The parameters that the models are built from.
#[derive(Clone, Copy, PartialEq, Eq, Structural, Debug)]
pub enum ParamName {
    V0,
    Power,
    F,
}

/// Which derivative of a potential is meant.
#[derive(Clone, Copy, PartialEq, Eq, Structural, Debug)]
pub enum Derivative {
    First,
    Second,
}

/// Why no potential could be built.
#[derive(Debug)]
pub enum ModelError {
    /// The table holds no value for a parameter that the model needs.
    MissingParameter { key: ParamName, model: ModelKind },
    /// The name is that of no supported model.
    UnknownModel { name: String },
}

/// The model that a name stands for.
pub open spec fn kind_named(name: Seq<char>) -> Option<ModelKind> {
    if name == "Chaotic"@ {
        Some(ModelKind::Chaotic)
    } else if name == "Natural"@ {
        Some(ModelKind::Natural)
    } else {
        None
    }
}

/// The first parameter of the model, in the order in which the factory asks
/// for them, that the table lacks.
pub open spec fn first_missing(
    kind: ModelKind,
    params: Map<Seq<char>, Scalar>,
) -> Option<ParamName> {
    if !params.contains_key(kind.first_key().text()) {
        Some(kind.first_key())
    } else if !params.contains_key(kind.second_key().text()) {
        Some(kind.second_key())
    } else {
        None
    }
}

/// The potential of the model with the values that the table gives.
pub open spec fn assembled(kind: ModelKind, params: Map<Seq<char>, Scalar>) -> Potential {
    let first = params[kind.first_key().text()];
    let second = params[kind.second_key().text()];
    match kind {
        ModelKind::Chaotic => Potential::Chaotic(ChaoticPotential { v0: first, power: second }),
        ModelKind::Natural => Potential::Natural(NaturalPotential { v0: first, f: second }),
    }
}

/// What the factory returns for a model name and a table.
pub open spec fn creation(
    model_name: Seq<char>,
    params: Map<Seq<char>, Scalar>,
    r: Result<Potential, ModelError>,
) -> bool {
    match kind_named(model_name) {
        None => match r {
            Err(ModelError::UnknownModel { name }) => name@ == model_name,
            _ => false,
        },
        Some(kind) => match first_missing(kind, params) {
            Some(key) => r == Err::<Potential, ModelError>(
                ModelError::MissingParameter { key, model: kind },
            ),
            None => r == Ok::<Potential, ModelError>(assembled(kind, params)),
        },
    }
}

impl ParamName {
    /// The key under which a table holds the parameter.
    pub open spec fn text(self) -> Seq<char> {
        match self {
            ParamName::V0 => "v0"@,
            ParamName::Power => "power"@,
            ParamName::F => "f"@,
        }
    }

    /// The key under which a table holds the parameter.
    pub fn as_str(self) -> (s: &'static str)
        ensures
            s@ == self.text(),
    {
        match self {
            ParamName::V0 => "v0",
            ParamName::Power => "power",
            ParamName::F => "f",
        }
    }
}

impl ModelKind {
    /// The name by which a configuration selects the model.
    pub open spec fn text(self) -> Seq<char> {
        match self {
            ModelKind::Chaotic => "Chaotic"@,
            ModelKind::Natural => "Natural"@,
        }
    }

    /// The model's name as error messages spell it.
    pub open spec fn label(self) -> Seq<char> {
        match self {
            ModelKind::Chaotic => "Chaotic"@,
            ModelKind::Natural => "Natural inflation"@,
        }
    }

    /// The parameter that the factory asks for first.
    pub open spec fn first_key(self) -> ParamName {
        ParamName::V0
    }

    /// The parameter that the factory asks for second.
    pub open spec fn second_key(self) -> ParamName {
        match self {
            ModelKind::Chaotic => ParamName::Power,
            ModelKind::Natural => ParamName::F,
        }
    }

    /// The name by which a configuration selects the model.
    pub fn name(self) -> (s: &'static str)
        ensures
            s@ == self.text(),
    {
        match self {
            ModelKind::Chaotic => "Chaotic",
            ModelKind::Natural => "Natural",
        }
    }

    /// The two parameters that the model needs, in the order in which the
    /// factory asks for them.
    pub fn required(self) -> (keys: (ParamName, ParamName))
        ensures
            keys.0 == self.first_key(),
            keys.1 == self.second_key(),
    {
        match self {
            ModelKind::Chaotic => (ParamName::V0, ParamName::Power),
            ModelKind::Natural => (ParamName::V0, ParamName::F),
        }
    }

    /// The model that `name` selects, if it selects one.
    pub fn parse(name: &str) -> (kind: Option<ModelKind>)
        ensures
            kind == kind_named(name@),
    {
        let given = String::from_str(name);
        if given == String::from_str("Chaotic") {
            Some(ModelKind::Chaotic)
        } else if given == String::from_str("Natural") {
            Some(ModelKind::Natural)
        } else {
            None
        }
    }
}

impl ModelError {
    /// The text that describes the error.
    pub open spec fn text(self) -> Seq<char> {
        match self {
            ModelError::MissingParameter { key, model } => "parameter '"@ + key.text()
                + "' is missing for "@ + model.label() + " model"@,
            ModelError::UnknownModel { name } => "Unknown model: "@ + name@,
        }
    }

    /// The text that describes the error to a user.
    pub fn message(&self) -> (text: String)
        ensures
            text@ == self.text(),
    {
        match self {
            ModelError::MissingParameter { key, model } => {
                let label = match model {
                    ModelKind::Chaotic => "Chaotic",
                    ModelKind::Natural => "Natural inflation",
                };
                String::from_str("parameter '").concat(key.as_str()).concat(
                    "' is missing for ",
                ).concat(label).concat(" model")
            },
            ModelError::UnknownModel { name } => String::from_str("Unknown model: ").concat(
                name.as_str(),
            ),
        }
    }
}

impl Potential {
    /// The model that the potential belongs to.
    pub open spec fn model(self) -> ModelKind {
        match self {
            Potential::Chaotic(_) => ModelKind::Chaotic,
            Potential::Natural(_) => ModelKind::Natural,
        }
    }

    /// Whether the given derivative is set to zero at `phi` in place of the
    /// closed form.
    ///
    /// A power law is singular at `phi = 0` in its first derivative for a
    /// power below one, and in its second for a power below two. The natural
    /// potential's first derivative is set to zero at `phi = 0` as well.
    pub open spec fn pinned(self, order: Derivative, phi: Scalar) -> bool {
        match self {
            Potential::Chaotic(c) => phi.zero() && c.power.below(order.critical_power()),
            Potential::Natural(_) => phi.zero() && order == Derivative::First,
        }
    }

    /// The model that the potential belongs to.
    pub fn kind(&self) -> (kind: ModelKind)
        ensures
            kind == self.model(),
    {
        match self {
            Potential::Chaotic(_) => ModelKind::Chaotic,
            Potential::Natural(_) => ModelKind::Natural,
        }
    }

    /// Whether the given derivative is zero at `phi` by definition, so that
    /// the closed form must not be evaluated there.
    pub fn pinned_to_zero(&self, order: Derivative, phi: Scalar) -> (r: bool)
        ensures
            r == self.pinned(order, phi),
    {
        match self {
            Potential::Chaotic(c) => phi.is_zero() && c.power.lt(order.threshold()),
            Potential::Natural(_) => phi.is_zero() && match order {
                Derivative::First => true,
                Derivative::Second => false,
            },
        }
    }
}

impl Derivative {
    /// The power below which a power law's derivative of this order is
    /// singular at zero: 1.0 for the first, 2.0 for the second.
    pub open spec fn critical_power(self) -> Scalar {
        match self {
            Derivative::First => Scalar { bits: 0x3ff0_0000_0000_0000 },
            Derivative::Second => Scalar { bits: 0x4000_0000_0000_0000 },
        }
    }

    /// The power below which a power law's derivative of this order is
    /// singular at zero.
    pub fn threshold(self) -> (power: Scalar)
        ensures
            power == self.critical_power(),
    {
        match self {
            Derivative::First => Scalar { bits: 0x3ff0_0000_0000_0000 },
            Derivative::Second => Scalar { bits: 0x4000_0000_0000_0000 },
        }
    }
}

/// Each model is selected by its own name, and by no other model's.
pub proof fn model_names_are_distinct(kind: ModelKind)
    ensures
        kind_named(kind.text()) == Some(kind),
{
    reveal_strlit("Chaotic");
    reveal_strlit("Natural");
    assert("Chaotic"@[0] != "Natural"@[0]);
}

/// Builds the potential of the model named `model_name` from `params`.
///
/// Fails with `UnknownModel` where the name is neither `Chaotic` nor
/// `Natural`, and with `MissingParameter` where the table lacks one of the
/// model's two parameters; of two missing ones the first is reported.
pub fn create_potential(
    model_name: &str,
    params: &ParamTable,
) -> (r: Result<Potential, ModelError>)
    ensures
        creation(model_name@, params@, r),
{
    let kind = match ModelKind::parse(model_name) {
        Some(kind) => kind,
        None => {
            return Err(ModelError::UnknownModel { name: String::from_str(model_name) });
        },
    };
    let keys = kind.required();
    let first = match params.get(keys.0.as_str()) {
        Some(value) => value,
        None => {
            return Err(ModelError::MissingParameter { key: keys.0, model: kind });
        },
    };
    let second = match params.get(keys.1.as_str()) {
        Some(value) => value,
        None => {
            return Err(ModelError::MissingParameter { key: keys.1, model: kind });
        },
    };
    match kind {
        ModelKind::Chaotic => Ok(Potential::Chaotic(ChaoticPotential { v0: first, power: second })),
        ModelKind::Natural => Ok(Potential::Natural(NaturalPotential { v0: first, f: second })),
    }
}

} // verus!
