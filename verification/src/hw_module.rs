//! The native module/device object model.
//!
//! Every hardware module the HAL exposes is described by a `hw_module_t`
//! record: an identifier, an API version pair, and a method table with
//! exactly one operation, open-device-by-name.  Every opened device begins
//! with a `hw_device_t` record carrying a version and a close operation.
//! The native layer hands these records out through raw pointers; here they
//! are explicit records with plain fields, so that the discovery and
//! lifecycle decisions made over them can be stated and proved.  The
//! descriptors' raw-pointer plumbing (the module back-reference, the dso
//! handle, the reserved padding) is confined to the thin shell that talks C
//! and is not represented here.
//!
//! [`ModuleRegistry`] stands for the process-wide hardware service locator:
//! resolving an id the locator does not know is a normal, expected outcome
//! (absence, never an error), and the locator reports it with a non-zero
//! status, which the shell turns into `None` before anything here runs.
//! The first successful resolve of a given id may load a shared library
//! process-wide; nothing ever unloads it.

use vstd::prelude::*;
use vstd::slice::slice_to_vec;

use crate::lights::light_device_t;

verus! {

/// A device descriptor's common head: every device record begins with
/// these fields, followed by capability-specific operations.
#[allow(non_camel_case_types)]
#[derive(Clone, Copy, Debug, PartialEq, Eq, Structural)]
pub struct hw_device_t {
    /// Tag identifying the record as a device descriptor.
    pub tag: u32,
    /// Version of the module-specific device API.
    pub version: u32,
    /// Whether the descriptor carries a close operation.
    pub has_close: bool,
}

impl Default for hw_device_t {
    /// The zeroed staging value a device record holds before the native
    /// open call populates it.
    fn default() -> (r: Self)
        ensures
            r == (hw_device_t { tag: 0, version: 0, has_close: false }),
    {
        hw_device_t { tag: 0, version: 0, has_close: false }
    }
}

/// One entry of a module's open table: a device kind the module's open
/// operation accepts, with the device record the native layer fills in for
/// it.  The kind is a null-terminated ASCII byte string.
#[derive(Debug)]
pub struct DeviceEntry {
    pub kind: Vec<u8>,
    pub device: light_device_t,
}

/// The mathematical value of a [`DeviceEntry`].
#[verifier::ext_equal]
pub ghost struct DeviceEntryView {
    pub kind: Seq<u8>,
    pub device: light_device_t,
}

impl View for DeviceEntry {
    type V = DeviceEntryView;

    open spec fn view(&self) -> DeviceEntryView {
        DeviceEntryView { kind: self.kind@, device: self.device }
    }
}

impl DeviceEntry {
    pub fn duplicate(&self) -> (r: DeviceEntry)
        ensures
            r@ == self@,
    {
        DeviceEntry { kind: slice_to_vec(self.kind.as_slice()), device: self.device }
    }
}

/// A module's method table.  The native table holds exactly one operation,
/// open-device-by-name; which kinds that operation accepts, and the device
/// record it produces for each, is native-side state and stands here as an
/// explicit table.
#[allow(non_camel_case_types)]
#[derive(Debug)]
pub struct hw_module_methods_t {
    pub open_table: Vec<DeviceEntry>,
}

impl View for hw_module_methods_t {
    type V = Seq<DeviceEntryView>;

    open spec fn view(&self) -> Seq<DeviceEntryView> {
        self.open_table@.map_values(|e: DeviceEntry| e@)
    }
}

impl hw_module_methods_t {
    pub fn duplicate(&self) -> (r: hw_module_methods_t)
        ensures
            r@ == self@,
    {
        let n: usize = self.open_table.len();
        let mut table: Vec<DeviceEntry> = Vec::new();
        let mut i: usize = 0;
        while i < n
            invariant
                n == self.open_table@.len(),
                0 <= i <= n,
                table@.len() == i,
                forall|j: int| 0 <= j < i ==> table@[j]@ == self.open_table@[j]@,
            decreases n - i,
        {
            table.push(self.open_table[i].duplicate());
            i += 1;
        }
        let r = hw_module_methods_t { open_table: table };
        assert(r@ =~= self@);
        r
    }
}

/// A module descriptor: identifier, version pair, and the method table.
/// A descriptor the locator hands out may report no method table at all;
/// opening a device through such a module yields absence.
#[allow(non_camel_case_types)]
#[derive(Debug)]
pub struct hw_module_t {
    /// Tag identifying the record as a module descriptor.
    pub tag: u32,
    /// The API version of the implemented module, major and minor.
    pub module_api_version: u16,
    /// The API version of the HAL module interface itself.
    pub hal_api_version: u16,
    /// Identifier of the module, as a null-terminated ASCII byte string.
    pub id: Vec<u8>,
    /// Name of the module.
    pub name: Vec<u8>,
    /// Author/owner/implementor of the module.
    pub author: Vec<u8>,
    /// The module's method table, when it reports one.
    pub methods: Option<hw_module_methods_t>,
}

/// The mathematical value of a [`hw_module_t`].
#[verifier::ext_equal]
pub ghost struct ModuleView {
    pub tag: u32,
    pub module_api_version: u16,
    pub hal_api_version: u16,
    pub id: Seq<u8>,
    pub name: Seq<u8>,
    pub author: Seq<u8>,
    pub methods: Option<Seq<DeviceEntryView>>,
}

impl View for hw_module_t {
    type V = ModuleView;

    open spec fn view(&self) -> ModuleView {
        ModuleView {
            tag: self.tag,
            module_api_version: self.module_api_version,
            hal_api_version: self.hal_api_version,
            id: self.id@,
            name: self.name@,
            author: self.author@,
            methods: match self.methods {
                Option::None => Option::None,
                Option::Some(m) => Option::Some(m@),
            },
        }
    }
}

impl Default for hw_module_t {
    /// The zeroed staging value a module record holds before the locator
    /// populates it.
    fn default() -> (r: Self)
        ensures
            r@.tag == 0,
            r@.module_api_version == 0,
            r@.hal_api_version == 0,
            r@.id == Seq::<u8>::empty(),
            r@.name == Seq::<u8>::empty(),
            r@.author == Seq::<u8>::empty(),
            r@.methods is None,
    {
        let r = hw_module_t {
            tag: 0,
            module_api_version: 0,
            hal_api_version: 0,
            id: Vec::new(),
            name: Vec::new(),
            author: Vec::new(),
            methods: Option::None,
        };
        assert(r.id@ =~= Seq::<u8>::empty());
        assert(r.name@ =~= Seq::<u8>::empty());
        assert(r.author@ =~= Seq::<u8>::empty());
        r
    }
}

impl hw_module_t {
    pub fn duplicate(&self) -> (r: hw_module_t)
        ensures
            r@ == self@,
    {
        let methods = match &self.methods {
            Option::None => Option::None,
            Option::Some(m) => Option::Some(m.duplicate()),
        };
        let r = hw_module_t {
            tag: self.tag,
            module_api_version: self.module_api_version,
            hal_api_version: self.hal_api_version,
            id: slice_to_vec(self.id.as_slice()),
            name: slice_to_vec(self.name.as_slice()),
            author: slice_to_vec(self.author.as_slice()),
            methods,
        };
        assert(r@ =~= self@);
        r
    }
}

/// The first module whose id matches, scanning in registration order.
pub open spec fn find_module(mods: Seq<ModuleView>, id: Seq<u8>) -> Option<ModuleView>
    decreases mods.len(),
{
    if mods.len() == 0 {
        Option::None
    } else if mods[0].id == id {
        Option::Some(mods[0])
    } else {
        find_module(mods.subrange(1, mods.len() as int), id)
    }
}

/// The hardware service locator: the named modules registered on this
/// device.  Which modules are present is device configuration; a build
/// lacking a feature simply has no entry for it.
#[derive(Debug)]
pub struct ModuleRegistry {
    pub modules: Vec<hw_module_t>,
}

impl View for ModuleRegistry {
    type V = Seq<ModuleView>;

    open spec fn view(&self) -> Seq<ModuleView> {
        self.modules@.map_values(|m: hw_module_t| m@)
    }
}

impl ModuleRegistry {
    /// A locator with no modules registered.
    pub fn new() -> (r: ModuleRegistry)
        ensures
            r@ == Seq::<ModuleView>::empty(),
    {
        let r = ModuleRegistry { modules: Vec::new() };
        assert(r@ =~= Seq::<ModuleView>::empty());
        r
    }

    /// Registers one more module.
    pub fn register(&mut self, module: hw_module_t)
        ensures
            final(self)@ == old(self)@.push(module@),
    {
        self.modules.push(module);
        assert(self@ =~= old(self)@.push(module@));
    }

    /// Looks up a module by its fixed identifier string.  Absence — no
    /// module matching the id is registered on this device — is a normal,
    /// expected outcome, reported as `None`, never as an error; the call is
    /// safe on any id and never panics.
    pub fn resolve(&self, module_id: &[u8]) -> (r: Option<hw_module_t>)
        ensures
            r is Some <==> find_module(self@, module_id@) is Some,
            r matches Some(m) ==> m@ == find_module(self@, module_id@).unwrap(),
    {
        let n: usize = self.modules.len();
        assert(self@.subrange(0, n as int) =~= self@);
        let mut i: usize = 0;
        while i < n
            invariant
                n == self.modules@.len(),
                0 <= i <= n,
                self@.len() == n,
                find_module(self@, module_id@) == find_module(
                    self@.subrange(i as int, n as int),
                    module_id@,
                ),
            decreases n - i,
        {
            let ghost rest = self@.subrange(i as int, n as int);
            assert(rest[0] == self@[i as int]);
            if crate::cstr::bytes_eq(self.modules[i].id.as_slice(), module_id) {
                return Some(self.modules[i].duplicate());
            }
            assert(rest.subrange(1, rest.len() as int) =~= self@.subrange(i + 1, n as int));
            i += 1;
        }
        assert(self@.subrange(n as int, n as int) =~= Seq::<ModuleView>::empty());
        None
    }
}

} // verus!
