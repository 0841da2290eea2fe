//! Resource attributes and the state updates that change them.
use vstd::prelude::*;
use vstd::std_specs::convert::FromSpecImpl;

verus! {

/// How a numeric update combines with the attribute's value.
#[derive(Clone, Copy, Debug, PartialEq, Eq, Structural)]
pub enum AttributeUpdateOp {
    Add,
    Ovr,
    Sub,
}

/// The new value that a state update carries for one attribute.
#[derive(Clone, Debug, PartialEq, Eq)]
pub enum AttributeUpdateValue {
    Text(String),
    Numeric { val: u64, op: AttributeUpdateOp, unit: String },
}

/// One attribute of a state update.
#[derive(Clone, Debug, PartialEq, Eq)]
pub struct AttributeUpdate {
    pub name: String,
    pub val: AttributeUpdateValue,
}

/// The current value of a resource attribute.
#[derive(Clone, Debug, PartialEq, Eq)]
pub enum AttrValue {
    Text(String),
    Numeric { val: u64, unit: String },
}

/// A named attribute of a resource.
#[derive(Clone, Debug, PartialEq, Eq)]
pub struct Attribute {
    pub name: String,
    pub value: AttrValue,
}

impl AttributeUpdateValue {
    /// The value that an attribute first seen in this update starts with.
    pub open spec fn initial(self) -> AttrValue {
        match self {
            AttributeUpdateValue::Text(t) => AttrValue::Text(t),
            AttributeUpdateValue::Numeric { val, unit, .. } => AttrValue::Numeric { val, unit },
        }
    }

    pub fn duplicate(&self) -> (copy: AttributeUpdateValue)
        ensures
            copy == *self,
    {
        match self {
            AttributeUpdateValue::Text(t) => AttributeUpdateValue::Text(t.clone()),
            AttributeUpdateValue::Numeric { val, op, unit } => AttributeUpdateValue::Numeric {
                val: *val,
                op: *op,
                unit: unit.clone(),
            },
        }
    }
}

impl AttributeUpdate {
    pub fn duplicate(&self) -> (copy: AttributeUpdate)
        ensures
            copy == *self,
    {
        AttributeUpdate { name: self.name.clone(), val: self.val.duplicate() }
    }
}

impl AttrValue {
    /// Whether `update` can be applied: it has the attribute's kind, and a
    /// numeric result stays within `u64`.
    pub open spec fn accepts(self, update: AttributeUpdateValue) -> bool {
        match (self, update) {
            (AttrValue::Text(_), AttributeUpdateValue::Text(_)) => true,
            (AttrValue::Numeric { val, .. }, AttributeUpdateValue::Numeric { val: upd, op, .. }) => {
                match op {
                    AttributeUpdateOp::Add => val + upd <= u64::MAX,
                    AttributeUpdateOp::Ovr => true,
                    AttributeUpdateOp::Sub => upd <= val,
                }
            },
            _ => false,
        }
    }

    /// The attribute after `update`: a text is replaced; a number is added to,
    /// subtracted from or overwritten, and keeps its unit.
    pub open spec fn updated(self, update: AttributeUpdateValue) -> AttrValue {
        match (self, update) {
            (AttrValue::Text(_), AttributeUpdateValue::Text(t)) => AttrValue::Text(t),
            (
                AttrValue::Numeric { val, unit },
                AttributeUpdateValue::Numeric { val: upd, op, .. },
            ) => match op {
                AttributeUpdateOp::Add => AttrValue::Numeric { val: (val + upd) as u64, unit },
                AttributeUpdateOp::Ovr => AttrValue::Numeric { val: upd, unit },
                AttributeUpdateOp::Sub => AttrValue::Numeric { val: (val - upd) as u64, unit },
            },
            _ => self,
        }
    }

    /// Whether `update` can be applied, decided at run time.
    pub fn can_update(&self, update: &AttributeUpdateValue) -> (ok: bool)
        ensures
            ok == self.accepts(*update),
    {
        match self {
            AttrValue::Text(_) => match update {
                AttributeUpdateValue::Text(_) => true,
                AttributeUpdateValue::Numeric { .. } => false,
            },
            AttrValue::Numeric { val, .. } => match update {
                AttributeUpdateValue::Text(_) => false,
                AttributeUpdateValue::Numeric { val: upd, op, .. } => match op {
                    AttributeUpdateOp::Add => *upd <= u64::MAX - *val,
                    AttributeUpdateOp::Ovr => true,
                    AttributeUpdateOp::Sub => *upd <= *val,
                },
            },
        }
    }

    /// Applies a state update to the attribute in place.
    pub fn update(&mut self, update: &AttributeUpdateValue)
        requires
            old(self).accepts(*update),
        ensures
            *final(self) == old(self).updated(*update),
    {
        match self {
            AttrValue::Text(t) => {
                match update {
                    AttributeUpdateValue::Text(upd) => {
                        *t = upd.clone();
                    },
                    AttributeUpdateValue::Numeric { .. } => {},
                }
            },
            AttrValue::Numeric { val, .. } => {
                match update {
                    AttributeUpdateValue::Text(_) => {},
                    AttributeUpdateValue::Numeric { val: upd, op, .. } => match op {
                        AttributeUpdateOp::Add => {
                            let new_val: u64 = *val + *upd;
                            *val = new_val;
                        },
                        AttributeUpdateOp::Ovr => {
                            *val = *upd;
                        },
                        AttributeUpdateOp::Sub => {
                            let new_val: u64 = *val - *upd;
                            *val = new_val;
                        },
                    },
                }
            },
        }
    }

    pub fn duplicate(&self) -> (copy: AttrValue)
        ensures
            copy == *self,
    {
        match self {
            AttrValue::Text(t) => AttrValue::Text(t.clone()),
            AttrValue::Numeric { val, unit } => AttrValue::Numeric { val: *val, unit: unit.clone() },
        }
    }
}

impl From<AttributeUpdateValue> for AttrValue {
    fn from(upd: AttributeUpdateValue) -> (value: AttrValue) {
        match upd {
            AttributeUpdateValue::Text(t) => AttrValue::Text(t),
            AttributeUpdateValue::Numeric { val, unit, .. } => AttrValue::Numeric { val, unit },
        }
    }
}

impl FromSpecImpl<AttributeUpdateValue> for AttrValue {
    open spec fn obeys_from_spec() -> bool {
        true
    }

    open spec fn from_spec(upd: AttributeUpdateValue) -> AttrValue {
        upd.initial()
    }
}

} // verus!
