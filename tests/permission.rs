use mydex::permission::{get_group_permissions, has_perm, Permission, PermissionSet};

#[test]
fn no_groups_no_permissions() {
    let set = get_group_permissions(&vec![]);
    assert_eq!(set.len(), 0);
    assert!(set.to_vec().is_empty());
    assert!(!has_perm(&vec![], Permission::AddRole));
}

#[test]
fn overlapping_groups_are_merged() {
    // one group grants AddRole and RemoveRole, the other RemoveRole and
    // AddPokedexToOtherProfiles
    let grants = vec![
        Permission::AddRole,
        Permission::RemoveRole,
        Permission::RemoveRole,
        Permission::AddPokedexToOtherProfiles,
    ];
    let set = get_group_permissions(&grants);
    assert_eq!(set.len(), 3);
    let members = set.to_vec();
    assert_eq!(members.len(), 3);
    assert!(set.contains(Permission::AddRole));
    assert!(set.contains(Permission::RemoveRole));
    assert!(set.contains(Permission::AddPokedexToOtherProfiles));
    assert!(!set.contains(Permission::RemovePokedexFromOtherProfiles));
}

#[test]
fn has_perm_matches_the_set() {
    let grants = vec![Permission::RemoveRole, Permission::RemovePokedexFromOtherProfiles];
    let set = get_group_permissions(&grants);
    for p in [
        Permission::AddRole,
        Permission::RemoveRole,
        Permission::AddPokedexToOtherProfiles,
        Permission::RemovePokedexFromOtherProfiles,
    ] {
        assert_eq!(has_perm(&grants, p), set.contains(p));
    }
}

#[test]
fn admins_scenario() {
    // alice belongs to admins only, and admins grants AddRole
    let grants = vec![Permission::AddRole];
    let set = get_group_permissions(&grants);
    assert_eq!(set.to_vec(), vec![Permission::AddRole]);
    assert!(!has_perm(&grants, Permission::RemoveRole));
    assert!(has_perm(&grants, Permission::AddRole));
}

#[test]
fn insert_keeps_one_copy() {
    let mut set = PermissionSet::new();
    set.insert(Permission::AddRole);
    set.insert(Permission::AddRole);
    assert_eq!(set.len(), 1);
}
