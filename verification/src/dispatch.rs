//! Method descriptors and the dispatch table.
//!
//! The schema layer hands the server a list of method descriptors, each a
//! name plus a kind decided once at schema-processing time: `Broadcast`
//! methods are outbound-only notifications, `Call` methods are dispatchable
//! request/response handlers. The dispatch table is built once at startup
//! and looked up by exact name match; broadcast methods are never
//! dispatchable.
use vstd::prelude::*;

verus! {

/// Whether a service method is an outbound-only broadcast or a
/// request/response call.
#[derive(Clone, Copy, Debug, PartialEq, Eq, Structural)]
pub enum MethodKind {
    Broadcast,
    Call,
}

/// One service method: its wire name and its kind. The schema layer
/// guarantees that names are unique within a service.
pub struct MethodDescriptor {
    pub name: String,
    pub kind: MethodKind,
}

/// The mathematical model of a `MethodDescriptor`.
pub struct MethodDescriptorModel {
    pub name: Seq<char>,
    pub kind: MethodKind,
}

impl View for MethodDescriptor {
    type V = MethodDescriptorModel;

    open spec fn view(&self) -> MethodDescriptorModel {
        MethodDescriptorModel { name: self.name@, kind: self.kind }
    }
}

impl Clone for MethodDescriptor {
    fn clone(&self) -> (r: Self)
        ensures
            r == *self,
    {
        MethodDescriptor { name: self.name.clone(), kind: self.kind }
    }
}

/// The models of a sequence of descriptors.
pub open spec fn descriptor_models(s: Seq<MethodDescriptor>) -> Seq<MethodDescriptorModel> {
    s.map_values(|m: MethodDescriptor| m@)
}

/// Whether some descriptor in the table is a `Call` method with this exact
/// name.
pub open spec fn table_has_call(methods: Seq<MethodDescriptorModel>, name: Seq<char>) -> bool {
    exists|i: int|
        0 <= i < methods.len() && methods[i].kind == MethodKind::Call && methods[i].name == name
}

/// Whether some descriptor in the table carries this name, of either kind.
pub open spec fn table_has_name(methods: Seq<MethodDescriptorModel>, name: Seq<char>) -> bool {
    exists|i: int| 0 <= i < methods.len() && methods[i].name == name
}

/// The runtime mapping from method name to handler slot: a fixed list of
/// descriptors, built once at startup, with unique names.
pub struct DispatchTable {
    methods: Vec<MethodDescriptor>,
}

impl View for DispatchTable {
    type V = Seq<MethodDescriptorModel>;

    closed spec fn view(&self) -> Seq<MethodDescriptorModel> {
        descriptor_models(self.methods@)
    }
}

impl DispatchTable {
    /// Name uniqueness, the data-model invariant the schema layer promises
    /// and every constructor of this table maintains.
    pub open spec fn wf(&self) -> bool {
        forall|i: int, j: int| 0 <= i < j < self@.len() ==> self@[i].name != self@[j].name
    }

    /// An empty table.
    pub fn new() -> (t: Self)
        ensures
            t@ == Seq::<MethodDescriptorModel>::empty(),
            t.wf(),
    {
        let t = DispatchTable { methods: Vec::new() };
        proof {
            assert(t@ =~= Seq::<MethodDescriptorModel>::empty());
        }
        t
    }

    /// Whether any descriptor, of either kind, carries this name.
    pub fn contains_name(&self, name: &String) -> (b: bool)
        ensures
            b == table_has_name(self@, name@),
    {
        let n = self.methods.len();
        let mut i: usize = 0;
        while i < n
            invariant
                i <= n,
                n == self.methods@.len(),
                forall|j: int| 0 <= j < i ==> self@[j].name != name@,
            decreases n - i,
        {
            if self.methods[i].name == *name {
                assert(self@[i as int].name == name@);
                return true;
            }
            i += 1;
        }
        false
    }

    /// Adds a descriptor unless its name is already taken, so that the
    /// uniqueness invariant holds whatever list the table is built from.
    /// Returns whether the descriptor was added.
    pub fn register(&mut self, d: MethodDescriptor) -> (added: bool)
        requires
            old(self).wf(),
        ensures
            final(self).wf(),
            added == !table_has_name(old(self)@, d@.name),
            added ==> final(self)@ == old(self)@.push(d@),
            !added ==> final(self)@ == old(self)@,
    {
        if self.contains_name(&d.name) {
            return false;
        }
        let ghost before = self@;
        let ghost dm = d@;
        self.methods.push(d);
        proof {
            assert(self@ =~= before.push(dm));
        }
        true
    }

    /// Exact-match lookup, true only for registered `Call`-kind methods:
    /// broadcast methods are outbound-only and never dispatchable, and an
    /// unregistered name has no handler.
    pub fn has_handler(&self, name: &String) -> (b: bool)
        ensures
            b == table_has_call(self@, name@),
    {
        let n = self.methods.len();
        let mut i: usize = 0;
        while i < n
            invariant
                i <= n,
                n == self.methods@.len(),
                forall|j: int|
                    0 <= j < i ==> !(self@[j].kind == MethodKind::Call && self@[j].name == name@),
            decreases n - i,
        {
            if self.methods[i].kind == MethodKind::Call && self.methods[i].name == *name {
                assert(self@[i as int].kind == MethodKind::Call && self@[i as int].name == name@);
                return true;
            }
            i += 1;
        }
        false
    }
}

} // verus!
