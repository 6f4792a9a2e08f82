//! Format resolution from a path's extension: every supported extension, in
//! any letter case, resolves to its format; anything else is rejected with
//! the unrecognized-extension error unless a format is forced.

use vhd::{resolve_vhd_type, Error, VhdType};

#[test]
fn plain_vhd_extension() {
    assert_eq!(resolve_vhd_type("file.vhd", None), Ok(VhdType::Vhd));
}

#[test]
fn plain_vhdx_extension() {
    assert_eq!(resolve_vhd_type("file.vhdx", None), Ok(VhdType::Vhdx));
}

#[test]
fn upper_case_extensions() {
    assert_eq!(resolve_vhd_type("FILE.VHD", None), Ok(VhdType::Vhd));
    assert_eq!(resolve_vhd_type("image.VHDX", None), Ok(VhdType::Vhdx));
    assert_eq!(resolve_vhd_type("image.Vhd", None), Ok(VhdType::Vhd));
    assert_eq!(resolve_vhd_type("image.vHdX", None), Ok(VhdType::Vhdx));
}

#[test]
fn extension_of_full_windows_path() {
    assert_eq!(
        resolve_vhd_type("C:\\images\\base.vhdx", None),
        Ok(VhdType::Vhdx)
    );
    assert_eq!(resolve_vhd_type("C:\\images\\base.vhd", None), Ok(VhdType::Vhd));
    assert_eq!(resolve_vhd_type("dir/sub/base.vhd", None), Ok(VhdType::Vhd));
}

#[test]
fn unknown_extension_is_rejected() {
    assert_eq!(
        resolve_vhd_type("file.img", None),
        Err(Error::UnknownFileExtension)
    );
    assert_eq!(
        resolve_vhd_type("file.vhdy", None),
        Err(Error::UnknownFileExtension)
    );
    assert_eq!(
        resolve_vhd_type("file.vh", None),
        Err(Error::UnknownFileExtension)
    );
}

#[test]
fn missing_extension_is_rejected() {
    assert_eq!(resolve_vhd_type("file", None), Err(Error::UnknownFileExtension));
    assert_eq!(resolve_vhd_type("", None), Err(Error::UnknownFileExtension));
    assert_eq!(
        resolve_vhd_type("dir.vhd/file", None),
        Err(Error::UnknownFileExtension)
    );
    assert_eq!(resolve_vhd_type("file.", None), Err(Error::UnknownFileExtension));
}

#[test]
fn leading_dot_is_no_extension() {
    assert_eq!(resolve_vhd_type(".vhd", None), Err(Error::UnknownFileExtension));
    assert_eq!(
        resolve_vhd_type("dir\\.vhdx", None),
        Err(Error::UnknownFileExtension)
    );
    assert_eq!(resolve_vhd_type("a/..", None), Err(Error::UnknownFileExtension));
}

#[test]
fn dotted_stem_still_has_extension() {
    assert_eq!(resolve_vhd_type("a.b.vhd", None), Ok(VhdType::Vhd));
    assert_eq!(resolve_vhd_type(".hidden.vhdx", None), Ok(VhdType::Vhdx));
}

#[test]
fn forced_kind_overrides_extension() {
    assert_eq!(
        resolve_vhd_type("file.img", Some(VhdType::Vhdx)),
        Ok(VhdType::Vhdx)
    );
    assert_eq!(
        resolve_vhd_type("file.vhdx", Some(VhdType::Vhd)),
        Ok(VhdType::Vhd)
    );
    assert_eq!(resolve_vhd_type("", Some(VhdType::Vhd)), Ok(VhdType::Vhd));
}
