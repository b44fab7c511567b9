use cargo_hot::store::{after_close, artifact_path, file_in, get_lib_path, retire, RetireError};

#[test]
fn generation_zero_gets_suffix_zero() {
    assert_eq!(get_lib_path(String::from("target/libdemo.so"), 0), "target/libdemo.so.0");
}

#[test]
fn generations_are_written_in_decimal() {
    assert_eq!(get_lib_path(String::from("lib.so"), 7), "lib.so.7");
    assert_eq!(get_lib_path(String::from("lib.so"), 10), "lib.so.10");
    assert_eq!(get_lib_path(String::from("lib.so"), 109), "lib.so.109");
    assert_eq!(get_lib_path(String::from("lib.so"), 255), "lib.so.255");
    assert_eq!(get_lib_path(String::from("lib.so"), 256), "lib.so.256");
    assert_eq!(get_lib_path(String::from("lib.so"), 9000), "lib.so.9000");
    assert_eq!(get_lib_path(String::from("lib.so"), u64::MAX), "lib.so.18446744073709551615");
}

#[test]
fn empty_artifact_path_still_gets_a_suffix() {
    assert_eq!(get_lib_path(String::new(), 3), ".3");
}

#[test]
fn generation_paths_agree_with_plain_formatting() {
    for n in 0..2000u64 {
        assert_eq!(get_lib_path(String::from("a/b.dll"), n), format!("a/b.dll.{}", n));
    }
}

#[test]
fn successive_generations_use_distinct_files() {
    for n in 0..500u64 {
        let current = get_lib_path(String::from("x.so"), n);
        let next = get_lib_path(String::from("x.so"), n + 1);
        assert_ne!(current, next);
        assert_ne!(current, "x.so");
    }
}

#[test]
fn file_in_joins_with_the_separator() {
    assert_eq!(file_in("target/debug", "/", "libdemo.so"), "target/debug/libdemo.so");
    assert_eq!(file_in("", "\\", "demo.dll"), "\\demo.dll");
}

#[test]
fn artifact_path_uses_the_platform_file_name() {
    let file = libloading::library_filename("demo").into_string().unwrap();
    assert_ne!(file, "demo");
    assert!(file.contains("demo"));
    assert_eq!(artifact_path("target/debug", "/", "demo"), format!("target/debug/{}", file));
}

#[test]
fn closed_generation_names_its_backing_file() {
    assert_eq!(after_close(Ok(()), String::from("lib.so"), 4), Ok(String::from("lib.so.4")));
    assert_eq!(after_close(Ok(()), String::from("lib.so"), 0), Ok(String::from("lib.so.0")));
}

#[test]
fn failed_close_names_no_file() {
    let failed = libloading::Error::DlCloseUnknown;
    assert_eq!(after_close(Err(failed), String::from("lib.so"), 4), Err(RetireError::CloseFailed));
}

#[test]
fn retiring_a_mapped_library_names_its_backing_file() {
    let mapped: libloading::Library = libloading::os::unix::Library::this().into();
    assert_eq!(retire(mapped, String::from("lib.so"), 12), Ok(String::from("lib.so.12")));
}
