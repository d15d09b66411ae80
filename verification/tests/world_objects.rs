use eryndor::roles::RoleType;
use eryndor::skills::{rank_skills_by_level, skills_to_practice, SkillType};
use eryndor::world_objects::{spawn_readiness, BushType, RockType, SpawnReadiness, TreeType};

#[test]
fn asset_paths() {
    assert_eq!(
        TreeType::TreeBare2B.get_path(),
        "KayKit_Forest_Nature_Pack_1.0_FREE/Assets/gltf/Tree_Bare_2_B_Color1.gltf"
    );
    assert_eq!(
        RockType::Rock1D.get_path(),
        "KayKit_Forest_Nature_Pack_1.0_FREE/Assets/gltf/Rock_1_D_Color1.gltf"
    );
    // variations without an asset of their own use the first model
    assert_eq!(RockType::Rock3R.get_path(), RockType::Rock1A.get_path());
    assert_eq!(BushType::Bush4F.get_path(), BushType::Bush1A.get_path());
    assert_eq!(
        BushType::Bush3A.get_path(),
        "KayKit_Forest_Nature_Pack_1.0_FREE/Assets/gltf/Bush_3_A_Color1.gltf"
    );
}

#[test]
fn placed_variations() {
    assert_eq!(TreeType::get_all_types().len(), 20);
    assert_eq!(RockType::get_common_types().len(), 11);
    assert_eq!(BushType::get_common_types().len(), 6);
    assert_eq!(TreeType::get_all_types()[14], TreeType::TreeBare1A);
}

#[test]
fn practice_follows_suggested_role() {
    let viable = vec![RoleType::Tank, RoleType::Healer];
    assert_eq!(
        skills_to_practice(RoleType::Tank, &viable),
        vec![SkillType::Swordsmanship, SkillType::ShieldDefense, SkillType::HeavyArmor]
    );
    assert_eq!(skills_to_practice(RoleType::Healer, &viable), vec![SkillType::Restoration, SkillType::LightArmor]);
    // a suggested role that is not viable falls back to damage skills
    assert_eq!(skills_to_practice(RoleType::Utility, &viable), vec![SkillType::FireMagic, SkillType::Archery]);
    assert_eq!(skills_to_practice(RoleType::DPS, &viable), vec![SkillType::FireMagic, SkillType::Archery]);
    assert_eq!(
        skills_to_practice(RoleType::Support, &vec![RoleType::Support]),
        vec![SkillType::Smithing, SkillType::Alchemy]
    );
}

#[test]
fn skills_rank_from_highest_level() {
    let levels = vec![
        (SkillType::Archery, 3),
        (SkillType::Stealth, 9),
        (SkillType::Cooking, 3),
        (SkillType::Alchemy, 12),
    ];
    let ranked = rank_skills_by_level(&levels);
    assert_eq!(
        ranked,
        vec![
            (SkillType::Alchemy, 12),
            (SkillType::Stealth, 9),
            (SkillType::Archery, 3),
            (SkillType::Cooking, 3),
        ]
    );
    assert!(rank_skills_by_level(&Vec::new()).is_empty());
}

#[test]
fn world_objects_wait_until_ready() {
    let three = vec![true, false, true, true];
    assert_eq!(spawn_readiness(true, &three, true, true), SpawnReadiness::AlreadySpawned);
    assert_eq!(spawn_readiness(false, &vec![], true, true), SpawnReadiness::NoTreeModels);
    assert_eq!(spawn_readiness(false, &three, false, true), SpawnReadiness::WaitingForTerrain);
    assert_eq!(spawn_readiness(false, &three, true, false), SpawnReadiness::WaitingForBiomes);
    assert_eq!(spawn_readiness(false, &vec![true, true, false], true, true), SpawnReadiness::WaitingForModels);
    assert_eq!(spawn_readiness(false, &three, true, true), SpawnReadiness::Ready);
}
