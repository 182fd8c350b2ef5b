//! Schema-side processing: classifying a service's methods and building the
//! runtime dispatch table from them.
//!
//! A method whose schema name starts with `subscribe` is a broadcast method;
//! every other method is a request/response call. A broadcast method's
//! publishing entry point drops that prefix and gains a `publish` prefix
//! (`subscribeItems` publishes as `publishItems`). These decisions are made
//! once, when the schema is processed, and never change at runtime.
use crate::dispatch::DispatchTable;
use crate::dispatch::MethodDescriptor;
use crate::dispatch::MethodDescriptorModel;
use crate::dispatch::MethodKind;
use crate::dispatch::descriptor_models;
use vstd::prelude::*;
use vstd::string::StrSliceExecFns;
use vstd::string::StringExecFns;

verus! {

/// Whether a schema method name marks a broadcast method: it starts with the
/// nine characters `subscribe`.
pub open spec fn is_subscribe_name(name: Seq<char>) -> bool {
    name.len() >= 9 && name.subrange(0, 9) == "subscribe"@
}

/// The entry point into schema processing: the piece the code-generation
/// layer instantiates to turn a service description into runtime bindings.
/// It owns no state; every decision is a function of the schema alone.
pub struct ZmqServerGenerator {}

impl ZmqServerGenerator {
    /// Classifies one schema method by its name: `subscribe…` methods are
    /// broadcasts, everything else is a call.
    pub fn method_kind(&self, name: &str) -> (k: MethodKind)
        ensures
            k == MethodKind::Broadcast <==> is_subscribe_name(name@),
            k == MethodKind::Broadcast || k == MethodKind::Call,
    {
        proof {
            reveal_strlit("subscribe");
        }
        let prefix: &str = "subscribe";
        let n = name.unicode_len();
        if n < 9 {
            return MethodKind::Call;
        }
        let mut i: usize = 0;
        while i < 9
            invariant
                i <= 9,
                n == name@.len(),
                n >= 9,
                prefix@ == "subscribe"@,
                prefix@.len() == 9,
                forall|j: int| 0 <= j < i ==> name@[j] == prefix@[j],
            decreases 9 - i,
        {
            if name.get_char(i) != prefix.get_char(i) {
                proof {
                    assert(name@.subrange(0, 9)[i as int] == name@[i as int]);
                }
                return MethodKind::Call;
            }
            i += 1;
        }
        proof {
            assert(name@.subrange(0, 9) =~= "subscribe"@);
        }
        MethodKind::Broadcast
    }

    /// The name under which a broadcast method is published: the
    /// `subscribe` prefix replaced by `publish`, the rest kept verbatim.
    pub fn publish_method_name(&self, name: &str) -> (r: String)
        requires
            is_subscribe_name(name@),
        ensures
            r@ == "publish"@ + name@.subrange(9, name@.len() as int),
    {
        let n = name.unicode_len();
        let rest = name.substring_char(9, n);
        String::from_str("publish").concat(rest)
    }

    /// Builds the descriptor for one schema method: the wire name under
    /// which it is addressed, and the kind its schema name decides.
    pub fn describe_method(&self, schema_name: &str, wire_name: &str) -> (d: MethodDescriptor)
        ensures
            d@.name == wire_name@,
            d@.kind == MethodKind::Broadcast <==> is_subscribe_name(schema_name@),
    {
        let kind = self.method_kind(schema_name);
        MethodDescriptor { name: wire_name.to_owned(), kind }
    }

    /// The sub-list of descriptors of one kind, in their schema order.
    pub fn filter_methods_by_kind(
        &self,
        methods: &Vec<MethodDescriptor>,
        kind: MethodKind,
    ) -> (r: Vec<MethodDescriptor>)
        ensures
            descriptor_models(r@) == descriptor_models(methods@).filter(
                |m: MethodDescriptorModel| m.kind == kind,
            ),
    {
        let ghost ms = descriptor_models(methods@);
        let ghost pred = |m: MethodDescriptorModel| m.kind == kind;
        let n = methods.len();
        let mut r: Vec<MethodDescriptor> = Vec::new();
        let mut i: usize = 0;
        proof {
            assert(descriptor_models(r@) =~= ms.take(0).filter(pred)) by {
                reveal(Seq::filter);
                assert(ms.take(0) =~= Seq::<MethodDescriptorModel>::empty());
            }
        }
        while i < n
            invariant
                i <= n,
                n == methods@.len(),
                ms == descriptor_models(methods@),
                pred == (|m: MethodDescriptorModel| m.kind == kind),
                descriptor_models(r@) == ms.take(i as int).filter(pred),
            decreases n - i,
        {
            let ghost r_before = descriptor_models(r@);
            if methods[i].kind == kind {
                r.push(methods[i].clone());
                proof {
                    assert(descriptor_models(r@) =~= r_before.push(ms[i as int]));
                }
            }
            proof {
                lemma_filter_take_step(ms, pred, i as int);
                assert(pred(ms[i as int]) == (ms[i as int].kind == kind));
                assert(descriptor_models(r@) =~= ms.take(i + 1).filter(pred));
            }
            i += 1;
        }
        proof {
            assert(ms.take(n as int) =~= ms);
        }
        r
    }

    /// Builds the dispatch table from a service's descriptors. The schema
    /// layer promises unique names; the table then answers `has_handler`
    /// with exactly the service's `Call`-kind methods.
    pub fn dispatch_table(&self, methods: Vec<MethodDescriptor>) -> (t: DispatchTable)
        requires
            forall|i: int, j: int|
                0 <= i < j < methods@.len() ==> descriptor_models(methods@)[i].name
                    != descriptor_models(methods@)[j].name,
        ensures
            t.wf(),
            t@ == descriptor_models(methods@),
    {
        let ghost ms = descriptor_models(methods@);
        let mut t = DispatchTable::new();
        let n = methods.len();
        let mut i: usize = 0;
        while i < n
            invariant
                i <= n,
                n == methods@.len(),
                ms == descriptor_models(methods@),
                forall|a: int, b: int| 0 <= a < b < ms.len() ==> ms[a].name != ms[b].name,
                t.wf(),
                t@ == ms.take(i as int),
            decreases n - i,
        {
            let ghost t_before = t@;
            let added = t.register(methods[i].clone());
            proof {
                if !added {
                    let j = choose|j: int| 0 <= j < t_before.len() && t_before[j].name == ms[i as int].name;
                    assert(t_before[j] == ms[j]);
                    assert(false);
                }
                assert(t@ =~= ms.take(i + 1));
            }
            i += 1;
        }
        proof {
            assert(ms.take(n as int) =~= ms);
        }
        t
    }
}

/// One step of the filtering loop: filtering one element more appends that
/// element exactly when it satisfies the predicate.
proof fn lemma_filter_take_step<A>(s: Seq<A>, pred: spec_fn(A) -> bool, i: int)
    requires
        0 <= i < s.len(),
    ensures
        pred(s[i]) ==> s.take(i + 1).filter(pred) == s.take(i).filter(pred).push(s[i]),
        !pred(s[i]) ==> s.take(i + 1).filter(pred) == s.take(i).filter(pred),
{
    reveal(Seq::filter);
    assert(s.take(i + 1).drop_last() =~= s.take(i));
    assert(s.take(i + 1).last() == s[i]);
    if pred(s[i]) {
        assert(s.take(i + 1).filter(pred) =~= s.take(i).filter(pred).push(s[i]));
    }
}

} // verus!
