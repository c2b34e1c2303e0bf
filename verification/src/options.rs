//! Configuration types the client operations take: plain data handed through
//! to the transport layer, with the defaults the portal expects.

use vstd::prelude::*;
use vstd::string::StringExecFns;

verus! {

/// Client-wide options: an API key and a user agent applied to every
/// request that does not override them.
#[derive(Debug)]
pub struct SkynetClientOptions {
    pub api_key: Option<String>,
    pub custom_user_agent: Option<String>,
}

impl Default for SkynetClientOptions {
    fn default() -> (r: Self)
        ensures
            r.api_key is None,
            r.custom_user_agent is None,
    {
        SkynetClientOptions { api_key: None, custom_user_agent: None }
    }
}

/// Options for one download: the endpoint path under the portal, transport
/// headers, and the name or identifier of an encryption key the portal
/// should use.
#[derive(Debug)]
pub struct DownloadOptions {
    pub endpoint_path: String,
    pub api_key: Option<String>,
    pub custom_user_agent: Option<String>,
    pub skykey_name: Option<String>,
    pub skykey_id: Option<String>,
}

impl Default for DownloadOptions {
    fn default() -> (r: Self)
        ensures
            r.endpoint_path@ == "/"@,
            r.api_key is None,
            r.custom_user_agent is None,
            r.skykey_name is None,
            r.skykey_id is None,
    {
        DownloadOptions {
            endpoint_path: String::from_str("/"),
            api_key: None,
            custom_user_agent: None,
            skykey_name: None,
            skykey_id: None,
        }
    }
}

/// Options for one metadata lookup: the endpoint path under the portal and
/// transport headers.
#[derive(Debug)]
pub struct MetadataOptions {
    pub endpoint_path: String,
    pub api_key: Option<String>,
    pub custom_user_agent: Option<String>,
}

impl Default for MetadataOptions {
    fn default() -> (r: Self)
        ensures
            r.endpoint_path@ == "/"@,
            r.api_key is None,
            r.custom_user_agent is None,
    {
        MetadataOptions {
            endpoint_path: String::from_str("/"),
            api_key: None,
            custom_user_agent: None,
        }
    }
}

/// Options for one upload: the endpoint path, transport headers, the form
/// field names the portal reads files from, overrides for the stored file
/// and directory names, and the name or identifier of an encryption key.
#[derive(Debug, Clone)]
pub struct UploadOptions {
    pub endpoint_path: String,
    pub api_key: Option<String>,
    pub custom_user_agent: Option<String>,
    pub portal_file_fieldname: String,
    pub portal_directory_file_fieldname: String,
    pub custom_filename: Option<String>,
    pub custom_dirname: Option<String>,
    pub skykey_name: Option<String>,
    pub skykey_id: Option<String>,
}

impl Default for UploadOptions {
    fn default() -> (r: Self)
        ensures
            r.endpoint_path@ == "/skynet/skyfile"@,
            r.api_key is None,
            r.custom_user_agent is None,
            r.portal_file_fieldname@ == "file"@,
            r.portal_directory_file_fieldname@ == "files[]"@,
            r.custom_filename is None,
            r.custom_dirname is None,
            r.skykey_name is None,
            r.skykey_id is None,
    {
        UploadOptions {
            endpoint_path: String::from_str("/skynet/skyfile"),
            api_key: None,
            custom_user_agent: None,
            portal_file_fieldname: String::from_str("file"),
            portal_directory_file_fieldname: String::from_str("files[]"),
            custom_filename: None,
            custom_dirname: None,
            skykey_name: None,
            skykey_id: None,
        }
    }
}

/// An encryption key held by the portal, as the skykey endpoints return it.
#[derive(Debug)]
pub struct Skykey {
    pub skykey: String,
    pub name: String,
    pub id: String,
    pub skykey_type: String,
}

/// Options for one skykey call: an endpoint path override and transport
/// headers.
#[derive(Debug)]
pub struct SkykeyOptions {
    pub endpoint_path: Option<String>,
    pub api_key: Option<String>,
    pub custom_user_agent: Option<String>,
}

impl Default for SkykeyOptions {
    fn default() -> (r: Self)
        ensures
            r.endpoint_path is None,
            r.api_key is None,
            r.custom_user_agent is None,
    {
        SkykeyOptions { endpoint_path: None, api_key: None, custom_user_agent: None }
    }
}

} // verus!
