use vstd::prelude::*;
use vstd::utf8::valid_utf8;

use crate::descriptor::{BundleCatalog, Descriptor};
use crate::errors::HostError;
use crate::identity::{nul_free, HostIdentity};

verus! {

#[verifier::external_type_specification]
#[verifier::external_body]
pub struct ExPluginEntry(clack_host::entry::PluginEntry);

#[verifier::external_type_specification]
#[verifier::external_body]
pub struct ExHostInfo(clack_host::host::HostInfo);

/// Relies on clack_host::entry::PluginEntry::get_plugin_factory, which
/// returns `None` exactly when the loaded module exposes no plugin
/// factory, and on clack_host::factory::PluginFactory::plugin_descriptors
/// together with the clack_host::plugin::PluginDescriptor field accessors,
/// which read the module's descriptor list in factory order. What the
/// foreign module reports is its own affair, so nothing is promised about
/// the catalog's contents.
#[verifier::external_body]
fn read_entry_catalog(entry: &clack_host::entry::PluginEntry) -> (r: Result<
    BundleCatalog,
    HostError,
>)
    ensures
        match r {
            Ok(_) => true,
            Err(e) => e == HostError::FactoryMissing,
        },
{
    let factory = match entry.get_plugin_factory() {
        Some(f) => f,
        None => return Err(HostError::FactoryMissing),
    };
    let bytes = |o: Option<&core::ffi::CStr>| match o {
        Some(c) => c.to_bytes().to_vec(),
        None => Vec::new(),
    };
    let mut descs = Vec::new();
    for d in factory.plugin_descriptors() {
        let (id, name) = (bytes(d.id()), bytes(d.name()));
        let (vendor, version) = (bytes(d.vendor()), bytes(d.version()));
        descs.push(Descriptor { id, name, vendor, version });
    }
    Ok(BundleCatalog { descs })
}

/// Relies on clack_host::host::HostInfo::new, which copies the four
/// strings into the structure the plugin interface expects and fails
/// exactly when one of them holds an interior nul byte; the byte fields
/// are handed over as string slices, so the conversion before the call
/// fails exactly on non-UTF-8 bytes.
#[verifier::external_body]
fn new_host_info(id: &HostIdentity) -> (r: Result<clack_host::host::HostInfo, HostError>)
    ensures
        match r {
            Ok(_) => valid_utf8(id.name@) && valid_utf8(id.vendor@) && valid_utf8(id.url@)
                && valid_utf8(id.version@) && nul_free(id.name@) && nul_free(id.vendor@)
                && nul_free(id.url@) && nul_free(id.version@),
            Err(e) => e == HostError::InvalidIdentity && !(valid_utf8(id.name@) && valid_utf8(
                id.vendor@,
            ) && valid_utf8(id.url@) && valid_utf8(id.version@) && nul_free(id.name@) && nul_free(
                id.vendor@,
            ) && nul_free(id.url@) && nul_free(id.version@)),
        },
{
    let name = std::str::from_utf8(&id.name).map_err(|_| HostError::InvalidIdentity)?;
    let vendor = std::str::from_utf8(&id.vendor).map_err(|_| HostError::InvalidIdentity)?;
    let url = std::str::from_utf8(&id.url).map_err(|_| HostError::InvalidIdentity)?;
    let version = std::str::from_utf8(&id.version).map_err(|_| HostError::InvalidIdentity)?;
    clack_host::host::HostInfo::new(name, vendor, url, version).map_err(
        |_| HostError::InvalidIdentity,
    )
}

/// Reads a loaded module's descriptor catalog through its factory,
/// snapshotting it once: every later enumeration or selection works on
/// this snapshot. Fails with `FactoryMissing` when the module exposes no
/// factory; what descriptors the foreign module reports is beyond this
/// host's control, so the catalog's contents carry no further promise.
pub fn load_catalog(entry: &clack_host::entry::PluginEntry) -> (r: Result<
    BundleCatalog,
    HostError,
>)
    ensures
        match r {
            Ok(_) => true,
            Err(e) => e == HostError::FactoryMissing,
        },
{
    read_entry_catalog(entry)
}

/// Packages a validated host identity into the structure the plugin
/// interface expects at construction time. Succeeds exactly when every
/// field is valid UTF-8 and free of interior nul bytes; otherwise fails
/// with `InvalidIdentity`.
pub fn package_identity(id: &HostIdentity) -> (r: Result<clack_host::host::HostInfo, HostError>)
    ensures
        (r is Ok) <==> (valid_utf8(id.name@) && valid_utf8(id.vendor@) && valid_utf8(id.url@)
            && valid_utf8(id.version@) && id.wf()),
        r is Err ==> r == Err::<clack_host::host::HostInfo, HostError>(HostError::InvalidIdentity),
{
    new_host_info(id)
}

} // verus!
