use appdmg::mount_point;

#[test]
fn mount_point_from_hdiutil_output() {
    let out = "/dev/disk4          \tGUID_partition_scheme          \t\n\
               /dev/disk4s1        \tApple_HFS                      \t/Volumes/My App\n";
    assert_eq!(mount_point(out), Some("/Volumes/My App".to_string()));
}

#[test]
fn mount_point_takes_first_matching_line() {
    let out = "a\t/Volumes/One\r\nb\t/Volumes/Two\n";
    assert_eq!(mount_point(out), Some("/Volumes/One".to_string()));
}

#[test]
fn mount_point_trims_the_last_field() {
    assert_eq!(mount_point("x\t  /Volumes/V  \n"), Some("/Volumes/V".to_string()));
    assert_eq!(mount_point("/Volumes/Bare"), Some("/Volumes/Bare".to_string()));
}

#[test]
fn mount_point_reads_only_the_last_field() {
    assert_eq!(mount_point("/Volumes/X\tother\n"), None);
}

#[test]
fn mount_point_absent() {
    assert_eq!(mount_point(""), None);
    assert_eq!(mount_point("\n\n"), None);
    assert_eq!(mount_point("/dev/disk4\tApple_HFS\t/Volumes\n"), None);
    assert_eq!(mount_point("/dev/disk4\tApple_HFS\t/private/tmp/x\n"), None);
}
