//! Object storage and uploads.

use crate::config::builder::{ConfigItem, Row, flag_string, flag_text, number_with_unit, push_item, redact_sensitive, redacted, row, rows, with_unit};
use vstd::prelude::*;

verus! {

/// The S3-compatible store and the upload limit.
#[derive(Clone, Debug)]
pub struct StorageConfig {
    /// Access key id.
    pub s3_access_key_id: String,
    /// Secret access key.
    pub s3_secret_access_key: String,
    /// Bucket used where none is named.
    pub s3_bucket_default: String,
    /// Whether buckets are addressed by path.
    pub s3_force_path_style: bool,
    /// Prefix put before every object key.
    pub s3_path_prefix: Option<String>,
    /// Address of the store.
    pub s3_endpoint_url: String,
    /// Address under which objects are public.
    pub s3_public_url: String,
    /// Region of the store.
    pub s3_region: String,
    /// Seconds a signed address stays valid.
    pub s3_signed_url_expires: u64,
    /// Largest upload, in bytes.
    pub max_upload_size: u64,
}

fn default_s3_access_key_id() -> (out: String)
    ensures
        out@ == Seq::<char>::empty(),
{
    String::new()
}

fn default_s3_secret_access_key() -> (out: String)
    ensures
        out@ == Seq::<char>::empty(),
{
    String::new()
}

fn default_s3_bucket_default() -> (out: String)
    ensures
        out@ == Seq::<char>::empty(),
{
    String::new()
}

fn default_s3_force_path_style() -> (out: bool)
    ensures
        out == true,
{
    true
}

fn default_s3_path_prefix() -> (out: Option<String>)
    ensures
        out is None,
{
    None
}

fn default_s3_endpoint_url() -> (out: String)
    ensures
        out@ == Seq::<char>::empty(),
{
    String::new()
}

fn default_s3_public_url() -> (out: String)
    ensures
        out@ == Seq::<char>::empty(),
{
    String::new()
}

fn default_s3_region() -> (out: String)
    ensures
        out@ == "auto"@,
{
    String::from_str("auto")
}

fn default_s3_signed_url_expires() -> (out: u64)
    ensures
        out == 3600,
{
    3600
}

fn default_max_upload_size() -> (out: u64)
    ensures
        out == 5242880,
{
    5242880
}

impl StorageConfig {
    /// Every field holds its default.
    pub open spec fn is_default(&self) -> bool {
        &&& self.s3_access_key_id@ == Seq::<char>::empty()
        &&& self.s3_secret_access_key@ == Seq::<char>::empty()
        &&& self.s3_bucket_default@ == Seq::<char>::empty()
        &&& self.s3_force_path_style
        &&& self.s3_path_prefix is None
        &&& self.s3_endpoint_url@ == Seq::<char>::empty()
        &&& self.s3_public_url@ == Seq::<char>::empty()
        &&& self.s3_region@ == "auto"@
        &&& self.s3_signed_url_expires == 3600
        &&& self.max_upload_size == 5242880
    }

    /// The rows this record adds to the debug table.
    pub open spec fn debug_rows(&self) -> Seq<Row> {
        seq![
            row("Storage"@, "S3 Access Key ID"@, redacted(self.s3_access_key_id@)),
            row("Storage"@, "S3 Secret Access Key"@, redacted(self.s3_secret_access_key@)),
            row("Storage"@, "S3 Bucket Default"@, self.s3_bucket_default@),
            row("Storage"@, "S3 Force Path Style"@, flag_text(self.s3_force_path_style)),
            row("Storage"@, "S3 Path Prefix"@, match self.s3_path_prefix { Some(text) => text@, None => "<not set>"@ }),
            row("Storage"@, "S3 Endpoint URL"@, self.s3_endpoint_url@),
            row("Storage"@, "S3 Public URL"@, self.s3_public_url@),
            row("Storage"@, "S3 Region"@, self.s3_region@),
            row("Storage"@, "S3 Signed URL Expires"@, with_unit(self.s3_signed_url_expires as nat, "s"@)),
            row("Storage"@, "Max Upload Size"@, with_unit(self.max_upload_size as nat, " bytes"@)),
        ]
    }

    /// Appends this record's rows to the debug table.
    pub fn add_to_debug(&self, items: &mut Vec<ConfigItem>)
        ensures
            rows(final(items)@) == rows(old(items)@) + self.debug_rows(),
    {
        push_item(items, "Storage", "S3 Access Key ID", redact_sensitive(self.s3_access_key_id.as_str()));
        push_item(items, "Storage", "S3 Secret Access Key", redact_sensitive(self.s3_secret_access_key.as_str()));
        push_item(items, "Storage", "S3 Bucket Default", self.s3_bucket_default.clone());
        push_item(items, "Storage", "S3 Force Path Style", flag_string(self.s3_force_path_style));
        push_item(items, "Storage", "S3 Path Prefix", match &self.s3_path_prefix { Some(text) => text.clone(), None => String::from_str("<not set>") });
        push_item(items, "Storage", "S3 Endpoint URL", self.s3_endpoint_url.clone());
        push_item(items, "Storage", "S3 Public URL", self.s3_public_url.clone());
        push_item(items, "Storage", "S3 Region", self.s3_region.clone());
        push_item(items, "Storage", "S3 Signed URL Expires", number_with_unit(self.s3_signed_url_expires, "s"));
        push_item(items, "Storage", "Max Upload Size", number_with_unit(self.max_upload_size, " bytes"));
    }
}

impl Default for StorageConfig {
    fn default() -> (out: Self)
        ensures
            out.is_default(),
    {
        StorageConfig {
            s3_access_key_id: default_s3_access_key_id(),
            s3_secret_access_key: default_s3_secret_access_key(),
            s3_bucket_default: default_s3_bucket_default(),
            s3_force_path_style: default_s3_force_path_style(),
            s3_path_prefix: default_s3_path_prefix(),
            s3_endpoint_url: default_s3_endpoint_url(),
            s3_public_url: default_s3_public_url(),
            s3_region: default_s3_region(),
            s3_signed_url_expires: default_s3_signed_url_expires(),
            max_upload_size: default_max_upload_size(),
        }
    }
}

} // verus!
