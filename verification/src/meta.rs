use vstd::prelude::*;
use vstd::string::StringExecFns;

verus! {

/// Fully qualifies one image version: where to fetch it (region, bucket,
/// object path, credentials), its unique version identifier, and opaque
/// references to its boot artifacts used when rendering bootloader entries.
pub struct InternalMeta {
    pub region: String,
    pub bucket: String,
    pub object_path: String,
    pub access_key: String,
    pub secret_key: String,
    pub uuid: String,
    pub der_bzimage: String,
    pub der_init: String,
    pub der_initrd: String,
}

impl Clone for InternalMeta {
    fn clone(&self) -> (r: Self)
        ensures
            r == *self,
    {
        InternalMeta {
            region: self.region.clone(),
            bucket: self.bucket.clone(),
            object_path: self.object_path.clone(),
            access_key: self.access_key.clone(),
            secret_key: self.secret_key.clone(),
            uuid: self.uuid.clone(),
            der_bzimage: self.der_bzimage.clone(),
            der_init: self.der_init.clone(),
            der_initrd: self.der_initrd.clone(),
        }
    }
}

/// The published manifest of one image version: content digest and exact
/// byte length of the uncompressed image, the on-disk format tag, and the
/// retrieval information.
pub struct ExternalMeta {
    pub sha256: String,
    pub size: u64,
    pub format: String,
    pub internal: InternalMeta,
}

impl Clone for ExternalMeta {
    fn clone(&self) -> (r: Self)
        ensures
            r == *self,
    {
        ExternalMeta {
            sha256: self.sha256.clone(),
            size: self.size,
            format: self.format.clone(),
            internal: self.internal.clone(),
        }
    }
}

/// The storage key under which a version's manifest is published: the
/// image's own object path with `.meta` appended.
pub fn meta_object_path(object_path: &String) -> (r: String)
    ensures
        r@ == object_path@ + ".meta"@,
{
    let mut r = object_path.clone();
    r.append(".meta");
    r
}

/// The bootloader configuration's two shapes: a committed single entry, or
/// the provisional dual arrangement that tries the new version first and
/// falls back to the current one.
pub enum BootConfig {
    Single { new: InternalMeta },
    Dual { new: InternalMeta, current: InternalMeta },
}

} // verus!
