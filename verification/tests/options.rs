use skynet::DownloadOptions;
use skynet::MetadataOptions;
use skynet::SkykeyOptions;
use skynet::SkynetClientOptions;
use skynet::UploadOptions;

#[test]
fn client_options_defaults() {
    let opt = SkynetClientOptions::default();
    assert!(opt.api_key.is_none());
    assert!(opt.custom_user_agent.is_none());
}

#[test]
fn download_and_metadata_defaults() {
    let d = DownloadOptions::default();
    assert_eq!(d.endpoint_path, "/");
    assert!(d.api_key.is_none());
    assert!(d.custom_user_agent.is_none());
    assert!(d.skykey_name.is_none());
    assert!(d.skykey_id.is_none());
    let m = MetadataOptions::default();
    assert_eq!(m.endpoint_path, "/");
    assert!(m.api_key.is_none());
}

#[test]
fn upload_defaults() {
    let u = UploadOptions::default();
    assert_eq!(u.endpoint_path, "/skynet/skyfile");
    assert_eq!(u.portal_file_fieldname, "file");
    assert_eq!(u.portal_directory_file_fieldname, "files[]");
    assert!(u.custom_filename.is_none());
    assert!(u.custom_dirname.is_none());
}

#[test]
fn skykey_options_defaults() {
    let s = SkykeyOptions::default();
    assert!(s.endpoint_path.is_none());
    assert!(s.api_key.is_none());
    assert!(s.custom_user_agent.is_none());
}
