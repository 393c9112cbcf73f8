use vstd::prelude::*;

use crate::kinds::{UpdateError, UpdateReport, VarSpecific};
use crate::value::{NumericFormat, VarValue};

verus! {

/// A named process variable: its metadata and its kind-specific state.
pub struct Variable {
    reference: String,
    description: String,
    group: String,
    operation: String,
    initialized: bool,
    specific: VarSpecific,
    used_by: Vec<String>,
}

/// A read-only copy of everything a variable holds, for diagnostics.
pub struct VariableSnapshot {
    pub reference: String,
    pub description: String,
    pub group: String,
    pub operation: String,
    pub initialized: bool,
    pub specific: VarSpecific,
    pub used_by: Vec<String>,
}

/// A signed 64-bit numeric variable reports, after an update with a signed
/// carrier, exactly the value it was given.
pub proof fn lemma_signed_update_kept(
    v0: Variable,
    v1: Variable,
    x: i128,
    r: Result<UpdateReport, UpdateError>,
)
    requires
        v0.spec_specific() matches VarSpecific::Numeric(n) && n.spec_format() == (NumericFormat {
            integer: true,
            signed: true,
            size: 64,
        }),
        v0.spec_update(v1, VarValue::SignedInt(x), r),
    ensures
        r is Ok,
        v1.spec_specific() matches VarSpecific::Numeric(m) && m.spec_value() == VarValue::SignedInt(
            x,
        ),
{
}

/// Any accepted update leaves the variable initialized, whether or not the
/// value changed; a refused one leaves the flag as it was.
pub proof fn lemma_update_initializes(
    v0: Variable,
    v1: Variable,
    new: VarValue,
    r: Result<UpdateReport, UpdateError>,
)
    requires
        v0.spec_update(v1, new, r),
    ensures
        r is Ok ==> v1.spec_initialized(),
        r is Err ==> v1.spec_initialized() == v0.spec_initialized(),
{
}

impl Variable {
    pub closed spec fn spec_reference(&self) -> Seq<char> {
        self.reference@
    }

    pub closed spec fn spec_description(&self) -> Seq<char> {
        self.description@
    }

    pub closed spec fn spec_group(&self) -> Seq<char> {
        self.group@
    }

    pub closed spec fn spec_operation(&self) -> Seq<char> {
        self.operation@
    }

    pub closed spec fn spec_initialized(&self) -> bool {
        self.initialized
    }

    pub closed spec fn spec_specific(&self) -> VarSpecific {
        self.specific
    }

    pub closed spec fn spec_used_by(&self) -> Seq<Seq<char>> {
        self.used_by@.map_values(|s: String| s@)
    }

    /// The metadata of `self` and `other` are the same.
    pub open spec fn same_metadata(&self, other: Variable) -> bool {
        &&& other.spec_reference() == self.spec_reference()
        &&& other.spec_description() == self.spec_description()
        &&& other.spec_group() == self.spec_group()
        &&& other.spec_operation() == self.spec_operation()
        &&& other.spec_used_by() == self.spec_used_by()
    }

    /// What updating `self` with `new` leads to: `after` and the result `r`.
    /// An accepted update marks the variable initialized; a refused one
    /// leaves it as it was.
    pub open spec fn spec_update(
        &self,
        after: Variable,
        new: VarValue,
        r: Result<UpdateReport, UpdateError>,
    ) -> bool {
        &&& self.same_metadata(after)
        &&& self.spec_specific().spec_update(after.spec_specific(), new, r)
        &&& after.spec_initialized() == (r is Ok || self.spec_initialized())
    }

    /// A variable that has not been initialized and has no consumers.
    pub fn new(
        reference: String,
        description: String,
        group: String,
        operation: String,
        specific: VarSpecific,
    ) -> (r: Self)
        ensures
            r.spec_reference() == reference@,
            r.spec_description() == description@,
            r.spec_group() == group@,
            r.spec_operation() == operation@,
            !r.spec_initialized(),
            r.spec_specific() == specific,
            r.spec_used_by() == Seq::<Seq<char>>::empty(),
    {
        let r = Variable {
            reference,
            description,
            group,
            operation,
            initialized: false,
            specific,
            used_by: Vec::new(),
        };
        assert(r.spec_used_by() =~= Seq::<Seq<char>>::empty());
        r
    }

    /// Marks the variable initialized, for good.
    pub fn initialize(&mut self)
        ensures
            final(self).spec_initialized(),
            old(self).same_metadata(*final(self)),
            final(self).spec_specific() == old(self).spec_specific(),
    {
        self.initialized = true;
    }

    pub fn get_group(&self) -> (r: String)
        ensures
            r@ == self.spec_group(),
    {
        self.group.clone()
    }

    pub fn get_reference(&self) -> (r: String)
        ensures
            r@ == self.spec_reference(),
    {
        self.reference.clone()
    }

    pub fn is_initialized(&self) -> (r: bool)
        ensures
            r == self.spec_initialized(),
    {
        self.initialized
    }

    pub fn specific(&self) -> (r: VarSpecific)
        ensures
            r == self.spec_specific(),
    {
        self.specific
    }

    /// A copy of the variable's metadata and state.
    pub fn describe(&self) -> (r: VariableSnapshot)
        ensures
            r.reference@ == self.spec_reference(),
            r.description@ == self.spec_description(),
            r.group@ == self.spec_group(),
            r.operation@ == self.spec_operation(),
            r.initialized == self.spec_initialized(),
            r.specific == self.spec_specific(),
            r.used_by@.map_values(|s: String| s@) == self.spec_used_by(),
    {
        let mut used_by: Vec<String> = Vec::new();
        let mut i: usize = 0;
        while i < self.used_by.len()
            invariant
                i <= self.used_by@.len(),
                used_by@.len() == i,
                forall|j: int| 0 <= j < i ==> used_by@[j]@ == self.used_by@[j]@,
            decreases self.used_by@.len() - i,
        {
            used_by.push(self.used_by[i].clone());
            i = i + 1;
        }
        assert(used_by@.map_values(|s: String| s@) =~= self.spec_used_by());
        VariableSnapshot {
            reference: self.reference.clone(),
            description: self.description.clone(),
            group: self.group.clone(),
            operation: self.operation.clone(),
            initialized: self.initialized,
            specific: self.specific,
            used_by,
        }
    }

    /// Updates the kind-specific state; an accepted update marks the
    /// variable initialized, even where the value did not change.
    pub fn set_value(&mut self, varvalue: VarValue) -> (r: Result<UpdateReport, UpdateError>)
        ensures
            old(self).spec_update(*final(self), varvalue, r),
    {
        let r = self.specific.set_value(varvalue);
        if r.is_ok() {
            self.initialize();
        }
        r
    }
}

} // verus!
