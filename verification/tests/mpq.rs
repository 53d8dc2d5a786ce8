use reliquary::mpq::{base_archive_names, build_mpq_list, patch_sort_key, ArchiveName, BaseProbe};

#[test]
fn test_patch_sort_key_base() {
    assert_eq!(patch_sort_key("patch.mpq"), 0);
    assert_eq!(patch_sort_key("patch.MPQ"), 0);
}

#[test]
fn test_patch_sort_key_numbers() {
    assert_eq!(patch_sort_key("patch-0.mpq"), 1);
    assert_eq!(patch_sort_key("patch-1.mpq"), 2);
    assert_eq!(patch_sort_key("patch-2.mpq"), 3);
    assert_eq!(patch_sort_key("patch-9.mpq"), 10);
}

#[test]
fn test_patch_sort_key_letters() {
    assert_eq!(patch_sort_key("patch-A.mpq"), 11);
    assert_eq!(patch_sort_key("patch-A.MPQ"), 11);
    assert_eq!(patch_sort_key("patch-Z.mpq"), 36);
    assert_eq!(patch_sort_key("patch-a.mpq"), 11);
    assert_eq!(patch_sort_key("patch-z.mpq"), 36);
}

#[test]
fn test_patch_sort_key_unknown() {
    assert_eq!(patch_sort_key("base.mpq"), u32::MAX);
    assert_eq!(patch_sort_key("patch-AB.mpq"), u32::MAX);
}

#[test]
fn test_patch_sort_order() {
    let mut names = vec![
        "patch-A.mpq",
        "patch-3.mpq",
        "patch.mpq",
        "patch-0.mpq",
        "patch-1.mpq",
        "patch-9.mpq",
        "patch-B.mpq",
    ];
    names.sort_by_key(|n| patch_sort_key(n));
    assert_eq!(
        names,
        vec![
            "patch.mpq",
            "patch-0.mpq",
            "patch-1.mpq",
            "patch-3.mpq",
            "patch-9.mpq",
            "patch-A.mpq",
            "patch-B.mpq",
        ]
    );
}

#[test]
fn patch_sort_key_edge_names() {
    assert_eq!(patch_sort_key("PATCH.mPq"), 0);
    assert_eq!(patch_sort_key(".mpq"), u32::MAX);
    assert_eq!(patch_sort_key("mpq"), u32::MAX);
    assert_eq!(patch_sort_key("patch"), u32::MAX);
    assert_eq!(patch_sort_key("patch-.mpq"), u32::MAX);
    assert_eq!(patch_sort_key("patch_1.mpq"), u32::MAX);
    assert_eq!(patch_sort_key("patch-\u{e9}.mpq"), u32::MAX);
    assert_eq!(patch_sort_key("patch-5.mpq.bak"), u32::MAX);
    assert_eq!(patch_sort_key("Patch-m.Mpq"), 23);
}

#[test]
fn base_archive_names_in_load_order() {
    assert_eq!(
        base_archive_names(),
        vec!["model", "texture", "terrain", "wmo", "sound", "misc", "interface", "fonts", "speech", "dbc", "speech2"]
    );
}

#[test]
fn build_mpq_list_orders_base_then_patches() {
    let mut base = vec![BaseProbe { upper_exists: false, lower_exists: false }; 11];
    base[0] = BaseProbe { upper_exists: true, lower_exists: true };
    base[3] = BaseProbe { upper_exists: false, lower_exists: true };
    base[9] = BaseProbe { upper_exists: true, lower_exists: false };
    let entries: Vec<String> = vec![
        "patch-B.mpq", "dbc.MPQ", "patch-2.MPQ", "readme.txt", "patch.mpq", "patch-b.mpq", "patch-10.mpq",
    ]
    .into_iter()
    .map(String::from)
    .collect();
    let list = build_mpq_list(&base, &entries);
    assert_eq!(
        list,
        vec![
            ArchiveName::Base { index: 0, upper: true },
            ArchiveName::Base { index: 3, upper: false },
            ArchiveName::Base { index: 9, upper: true },
            ArchiveName::Patch("patch.mpq".into()),
            ArchiveName::Patch("patch-2.MPQ".into()),
            ArchiveName::Patch("patch-B.mpq".into()),
            ArchiveName::Patch("patch-b.mpq".into()),
        ]
    );
}

#[test]
fn build_mpq_list_with_nothing_found() {
    let list = build_mpq_list(&[], &[]);
    assert!(list.is_empty());
}
