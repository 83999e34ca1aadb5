//! Values of the declarative configuration format that may still be
//! unresolved references of the form `{name}`, and the update (config
//! inheritance) operation over them.

use vstd::prelude::*;

verus! {

/// Updating a configuration value with the value of a more specific
/// configuration layer.
pub trait Update: Sized {
    /// Overwrite this value from `base` where `base` carries something.
    fn update(&mut self, base: Self);
}

/// A configuration value: either resolved, or a `{name}` reference to be
/// resolved later.
pub enum Variable<T> {
    /// A concrete value.
    Resolved(T),
    /// A reference of the form `{name}`.
    Reference(String),
}

impl<T> Variable<T> {
    /// The resolved value, if this variable carries one.
    pub fn resolved(&self) -> (r: Option<&T>)
        ensures
            r matches Some(v) ==> self matches Variable::Resolved(w) && v == w,
            r is Some <==> self is Resolved,
    {
        match self {
            Variable::Resolved(value) => Some(value),
            Variable::Reference(_) => None,
        }
    }
}

impl<T> Update for Variable<T> {
    /// The base layer's variable replaces this one.
    fn update(&mut self, base: Self) {
        *self = base;
    }
}

impl<T: Update> Update for Option<T> {
    /// A present base updates a present value, or fills an absent one.
    fn update(&mut self, base: Self) {
        if let Some(base_value) = base {
            match self {
                Some(value) => value.update(base_value),
                None => {
                    *self = Some(base_value);
                },
            }
        }
    }
}

impl<T> Update for Vec<T> {
    /// The base layer's entries are appended.
    fn update(&mut self, base: Self) {
        let mut base = base;
        self.append(&mut base);
    }
}

} // verus!
