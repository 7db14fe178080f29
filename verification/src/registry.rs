//! The application registry, taken as an explicit parameter by every
//! dispatch call: the application's name, and its zomes, each declaring the
//! entry type names it owns validation for and carrying its bytecode. The
//! module resolver looks an application type name up here; a zome whose
//! bytecode has zero length is treated as having no validation logic at all.

use vstd::prelude::*;

verus! {

/// One application module: its name, the entry type names it claims
/// ownership of, and its bytecode.
pub struct Zome {
    pub name: String,
    pub entry_type_names: Vec<String>,
    pub code: Vec<u8>,
}

/// Spec-level image of a `Zome`.
pub struct ZomeView {
    pub name: Seq<char>,
    pub entry_type_names: Seq<Seq<char>>,
    pub code: Seq<u8>,
}

impl View for Zome {
    type V = ZomeView;

    open spec fn view(&self) -> ZomeView {
        ZomeView {
            name: self.name@,
            entry_type_names: self.entry_type_names.deep_view(),
            code: self.code@,
        }
    }
}

/// The application registry: the application's own name and its zomes.
pub struct Registry {
    pub name: String,
    pub zomes: Vec<Zome>,
}

/// Spec-level image of a `Registry`.
pub struct RegistryView {
    pub name: Seq<char>,
    pub zomes: Seq<ZomeView>,
}

impl View for Registry {
    type V = RegistryView;

    open spec fn view(&self) -> RegistryView {
        RegistryView { name: self.name@, zomes: self.zomes@.map_values(|z: Zome| z@) }
    }
}

/// Whether a zome claims ownership of validation for an entry type name.
pub open spec fn zome_claims(zome: ZomeView, app_type_name: Seq<char>) -> bool {
    zome.entry_type_names.contains(app_type_name)
}

/// The name of the first zome in the sequence that claims the type name.
pub open spec fn resolve_in(zomes: Seq<ZomeView>, app_type_name: Seq<char>) -> Option<Seq<char>>
    decreases zomes.len(),
{
    if zomes.len() == 0 {
        None
    } else if zome_claims(zomes[0], app_type_name) {
        Some(zomes[0].name)
    } else {
        resolve_in(zomes.drop_first(), app_type_name)
    }
}

/// The owning zome of an application type name, if any zome claims it.
pub open spec fn spec_resolve(reg: RegistryView, app_type_name: Seq<char>) -> Option<Seq<char>> {
    resolve_in(reg.zomes, app_type_name)
}

/// The bytecode of the first zome in the sequence with the given name.
pub open spec fn code_in(zomes: Seq<ZomeView>, zome_name: Seq<char>) -> Option<Seq<u8>>
    decreases zomes.len(),
{
    if zomes.len() == 0 {
        None
    } else if zomes[0].name == zome_name {
        Some(zomes[0].code)
    } else {
        code_in(zomes.drop_first(), zome_name)
    }
}

/// The bytecode recorded for a zome, if the zome exists at all.
pub open spec fn spec_code(reg: RegistryView, zome_name: Seq<char>) -> Option<Seq<u8>> {
    code_in(reg.zomes, zome_name)
}

/// The usable bytecode of a zome: none when the zome is absent, and none
/// when its bytecode is present but has zero length — an empty module is
/// policy-equivalent to no module.
pub open spec fn spec_wasm(reg: RegistryView, zome_name: Seq<char>) -> Option<Seq<u8>> {
    match spec_code(reg, zome_name) {
        Some(code) => if code.len() > 0 {
            Some(code)
        } else {
            None
        },
        None => None,
    }
}

fn contains_string(names: &Vec<String>, target: &String) -> (r: bool)
    ensures
        r == names.deep_view().contains(target@),
{
    let n = names.len();
    let mut j: usize = 0;
    while j < n
        invariant
            n == names@.len(),
            0 <= j <= n,
            forall|k: int| 0 <= k < j ==> names.deep_view()[k] != target@,
        decreases n - j,
    {
        if names[j] == *target {
            assert(names.deep_view()[j as int] == target@);
            return true;
        }
        j += 1;
    }
    assert(!names.deep_view().contains(target@)) by {
        if names.deep_view().contains(target@) {
            let k = choose|k: int| 0 <= k < names.deep_view().len()
                && names.deep_view()[k] == target@;
            assert(names.deep_view()[k] != target@);
        }
    }
    false
}

impl Registry {
    /// Resolve the zome that owns validation for an application type name:
    /// the first zome, in declaration order, that claims the name.
    pub fn zome_name_for_entry_type(&self, app_type_name: &String) -> (r: Option<String>)
        ensures
            (r matches Some(name) ==> spec_resolve(self@, app_type_name@) == Some(name@)),
            (r is None ==> spec_resolve(self@, app_type_name@) is None),
    {
        let n = self.zomes.len();
        let mut i: usize = 0;
        assert(self@.zomes.skip(0) =~= self@.zomes);
        while i < n
            invariant
                n == self.zomes@.len(),
                0 <= i <= n,
                self@.zomes.len() == n,
                resolve_in(self@.zomes.skip(i as int), app_type_name@) == spec_resolve(
                    self@,
                    app_type_name@,
                ),
            decreases n - i,
        {
            assert(self@.zomes.skip(i as int)[0] == self@.zomes[i as int]);
            assert(self@.zomes[i as int] == self.zomes[i as int]@);
            if contains_string(&self.zomes[i].entry_type_names, app_type_name) {
                return Some(self.zomes[i].name.clone());
            }
            assert(self@.zomes.skip(i as int).drop_first() =~= self@.zomes.skip(i as int + 1));
            i += 1;
        }
        assert(self@.zomes.skip(n as int) =~= Seq::<ZomeView>::empty());
        None
    }
}

fn copy_bytes(src: &Vec<u8>) -> (r: Vec<u8>)
    ensures
        r@ == src@,
{
    let n = src.len();
    let mut out: Vec<u8> = Vec::new();
    let mut i: usize = 0;
    while i < n
        invariant
            n == src@.len(),
            0 <= i <= n,
            out@ == src@.subrange(0, i as int),
        decreases n - i,
    {
        out.push(src[i]);
        assert(out@ =~= src@.subrange(0, i as int + 1));
        i += 1;
    }
    proof {
        assert(out@ =~= src@);
    }
    out
}

/// Fetch the usable bytecode of a zome: none when no zome of that name is
/// declared, and none when the zome's bytecode has zero length.
pub fn get_wasm(registry: &Registry, zome_name: &String) -> (r: Option<Vec<u8>>)
    ensures
        (r matches Some(code) ==> spec_wasm(registry@, zome_name@) == Some(code@)),
        (r is None ==> spec_wasm(registry@, zome_name@) is None),
{
    let n = registry.zomes.len();
    let mut i: usize = 0;
    assert(registry@.zomes.skip(0) =~= registry@.zomes);
    while i < n
        invariant
            n == registry.zomes@.len(),
            0 <= i <= n,
            registry@.zomes.len() == n,
            code_in(registry@.zomes.skip(i as int), zome_name@) == spec_code(
                registry@,
                zome_name@,
            ),
        decreases n - i,
    {
        assert(registry@.zomes.skip(i as int)[0] == registry@.zomes[i as int]);
        assert(registry@.zomes[i as int] == registry.zomes[i as int]@);
        if registry.zomes[i].name == *zome_name {
            if registry.zomes[i].code.len() > 0 {
                return Some(copy_bytes(&registry.zomes[i].code));
            } else {
                return None;
            }
        }
        assert(registry@.zomes.skip(i as int).drop_first() =~= registry@.zomes.skip(i as int + 1));
        i += 1;
    }
    assert(registry@.zomes.skip(n as int) =~= Seq::<ZomeView>::empty());
    None
}

} // verus!
