//! The static table that maps lease names to floating-IP names.
//!
//! Every configured floating IP fronts one service. The coordination layer
//! announces the node that currently serves a service through a lease whose
//! name is derived from the service's namespace and name, so the table is
//! keyed by that derived name.

use vstd::hash_map::StringHashMap;
use vstd::prelude::*;
use vstd::string::*;

verus! {

/// The lease name under which the holder of the service `name` in
/// `namespace` is announced: `cilium-l2announce-<namespace>-<name>`.
pub open spec fn lease_key_spec(namespace: Seq<char>, name: Seq<char>) -> Seq<char> {
    "cilium-l2announce-"@ + namespace + "-"@ + name
}

/// Builds the lease name that announces the holder of a service.
pub fn lease_key(namespace: &str, name: &str) -> (key: String)
    ensures
        key@ == lease_key_spec(namespace@, name@),
{
    let mut key = String::from_str("cilium-l2announce-");
    key.append(namespace);
    key.append("-");
    key.append(name);
    key
}

/// One configuration entry: a floating IP and the service it fronts.
#[derive(Debug, Clone, PartialEq, Eq)]
pub struct ServiceBinding {
    pub floating_ip_name: String,
    pub service_name: String,
    pub service_namespace: String,
}

/// The mathematical content of a [`ServiceBinding`].
pub struct ServiceBindingView {
    pub floating_ip_name: Seq<char>,
    pub service_name: Seq<char>,
    pub service_namespace: Seq<char>,
}

impl ServiceBindingView {
    /// The name of the lease that announces this binding's service.
    pub open spec fn lease_key(self) -> Seq<char> {
        lease_key_spec(self.service_namespace, self.service_name)
    }
}

impl View for ServiceBinding {
    type V = ServiceBindingView;

    open spec fn view(&self) -> ServiceBindingView {
        ServiceBindingView {
            floating_ip_name: self.floating_ip_name@,
            service_name: self.service_name@,
            service_namespace: self.service_namespace@,
        }
    }
}

/// The views of a list of bindings, in order.
pub open spec fn bindings_view(bindings: Seq<ServiceBinding>) -> Seq<ServiceBindingView> {
    bindings.map_values(|b: ServiceBinding| b@)
}

/// The table that a list of bindings describes: each binding maps its lease
/// key to its floating IP, and where two bindings share a lease key the later
/// one stands.
pub open spec fn table_of(bindings: Seq<ServiceBindingView>) -> Map<Seq<char>, Seq<char>>
    decreases bindings.len(),
{
    if bindings.len() == 0 {
        Map::empty()
    } else {
        table_of(bindings.drop_last()).insert(
            bindings.last().lease_key(),
            bindings.last().floating_ip_name,
        )
    }
}

/// A binding that no later binding overrides is in the table: its lease key
/// maps to its floating IP.
pub proof fn lemma_table_maps_binding(bindings: Seq<ServiceBindingView>, i: int)
    requires
        0 <= i < bindings.len(),
        forall|j: int|
            i < j < bindings.len() ==> (#[trigger] bindings[j]).lease_key()
                != bindings[i].lease_key(),
    ensures
        table_of(bindings).contains_key(bindings[i].lease_key()),
        table_of(bindings)[bindings[i].lease_key()] == bindings[i].floating_ip_name,
    decreases bindings.len(),
{
    if i < bindings.len() - 1 {
        let earlier = bindings.drop_last();
        assert forall|j: int| i < j < earlier.len() implies (#[trigger] earlier[j]).lease_key()
            != earlier[i].lease_key() by {
            assert(earlier[j] == bindings[j]);
        }
        lemma_table_maps_binding(earlier, i);
        assert(bindings.last() == bindings[bindings.len() - 1]);
    }
}

/// A lease name that no binding's service derives is not in the table.
pub proof fn lemma_table_misses_foreign_lease(
    bindings: Seq<ServiceBindingView>,
    lease_name: Seq<char>,
)
    requires
        forall|i: int|
            0 <= i < bindings.len() ==> (#[trigger] bindings[i]).lease_key() != lease_name,
    ensures
        !table_of(bindings).contains_key(lease_name),
    decreases bindings.len(),
{
    if bindings.len() > 0 {
        let earlier = bindings.drop_last();
        assert forall|i: int| 0 <= i < earlier.len() implies (#[trigger] earlier[i]).lease_key()
            != lease_name by {
            assert(earlier[i] == bindings[i]);
        }
        lemma_table_misses_foreign_lease(earlier, lease_name);
        assert(bindings.last() == bindings[bindings.len() - 1]);
    }
}

/// Every entry of the table stems from a binding: the lease is the key of
/// some binding's service, and it maps to that binding's floating IP.
pub proof fn lemma_table_entry_has_binding(
    bindings: Seq<ServiceBindingView>,
    lease_name: Seq<char>,
) -> (i: int)
    requires
        table_of(bindings).contains_key(lease_name),
    ensures
        0 <= i < bindings.len(),
        bindings[i].lease_key() == lease_name,
        bindings[i].floating_ip_name == table_of(bindings)[lease_name],
    decreases bindings.len(),
{
    if bindings.last().lease_key() == lease_name {
        bindings.len() - 1
    } else {
        lemma_table_entry_has_binding(bindings.drop_last(), lease_name)
    }
}

/// Where every binding names a floating IP of its own, no floating IP is
/// controlled by two leases: the table is injective.
pub proof fn lemma_table_is_injective(bindings: Seq<ServiceBindingView>)
    requires
        forall|i: int, j: int|
            0 <= i < j < bindings.len() ==> (#[trigger] bindings[i]).floating_ip_name != (
            #[trigger] bindings[j]).floating_ip_name,
    ensures
        table_of(bindings).is_injective(),
    decreases bindings.len(),
{
    if bindings.len() > 0 {
        let earlier = bindings.drop_last();
        let last = bindings.last();
        assert forall|i: int, j: int| 0 <= i < j < earlier.len() implies (
        #[trigger] earlier[i]).floating_ip_name != (#[trigger] earlier[j]).floating_ip_name by {
            assert(earlier[i] == bindings[i] && earlier[j] == bindings[j]);
        }
        lemma_table_is_injective(earlier);
        let table = table_of(bindings);
        assert forall|x: Seq<char>, y: Seq<char>|
            x != y && table.dom().contains(x) && table.dom().contains(y) implies #[trigger] table[x]
            != #[trigger] table[y] by {
            if x != last.lease_key() && y != last.lease_key() {
                assert(table_of(earlier).dom().contains(x) && table_of(earlier).dom().contains(y));
            } else {
                // One of the two is the last binding's lease; the other is an
                // entry of the earlier table and so names an earlier
                // binding's floating IP.
                let other = if x == last.lease_key() {
                    y
                } else {
                    x
                };
                let k = lemma_table_entry_has_binding(earlier, other);
                assert(earlier[k] == bindings[k]);
                assert(last == bindings[bindings.len() - 1]);
            }
        }
    }
}

/// Lease name to floating-IP name. Built once from configuration and only
/// read afterwards.
pub struct MappingTable {
    entries: StringHashMap<String>,
}

impl View for MappingTable {
    type V = Map<Seq<char>, Seq<char>>;

    closed spec fn view(&self) -> Map<Seq<char>, Seq<char>> {
        self.entries@.map_values(|name: String| name@)
    }
}

impl MappingTable {
    /// A table that manages no lease.
    pub fn new() -> (table: Self)
        ensures
            table@ == Map::<Seq<char>, Seq<char>>::empty(),
    {
        let table = MappingTable { entries: StringHashMap::new() };
        assert(table@ =~= Map::<Seq<char>, Seq<char>>::empty());
        table
    }

    /// Maps the lease of the binding's service to the binding's floating IP,
    /// replacing what the lease was mapped to before.
    pub fn bind(&mut self, binding: &ServiceBinding)
        ensures
            final(self)@ == old(self)@.insert(binding@.lease_key(), binding@.floating_ip_name),
    {
        let key = lease_key(binding.service_namespace.as_str(), binding.service_name.as_str());
        self.entries.insert(key, binding.floating_ip_name.clone());
        assert(self@ =~= old(self)@.insert(binding@.lease_key(), binding@.floating_ip_name));
    }

    /// Builds the table that the configured bindings describe.
    pub fn from_bindings(bindings: &Vec<ServiceBinding>) -> (table: Self)
        ensures
            table@ == table_of(bindings_view(bindings@)),
    {
        let mut table = MappingTable::new();
        let mut i: usize = 0;
        while i < bindings.len()
            invariant
                i <= bindings.len(),
                table@ == table_of(bindings_view(bindings@.take(i as int))),
            decreases bindings.len() - i,
        {
            table.bind(&bindings[i]);
            proof {
                let before = bindings_view(bindings@.take(i as int));
                let after = bindings_view(bindings@.take(i + 1));
                assert(after.drop_last() =~= before);
                assert(after.last() == bindings@[i as int]@);
            }
            i = i + 1;
        }
        assert(bindings@.take(i as int) =~= bindings@);
        table
    }

    /// The floating IP that a lease controls, if the lease is managed.
    pub fn lookup(&self, lease_name: &str) -> (found: Option<String>)
        ensures
            match found {
                Some(name) => self@.contains_key(lease_name@) && name@ == self@[lease_name@],
                None => !self@.contains_key(lease_name@),
            },
    {
        match self.entries.get(lease_name) {
            Some(name) => Some(name.clone()),
            None => None,
        }
    }
}

} // verus!
