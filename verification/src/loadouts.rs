//! Loadouts: the equipment and abilities a character takes into play, built
//! from the character's skill levels for the role it is best suited to.
use vstd::prelude::*;
use vstd::string::*;
use crate::roles::RoleType;
use crate::skills::WeaponType;
use crate::cycle::{next_index, previous_index};

verus! {

/// The weight class of worn armor.
#[derive(Debug, Clone, Copy, PartialEq, Eq, Structural)]
pub enum ArmorType {
    Light,
    Medium,
    Heavy,
}

/// A named set of equipment and active abilities.
pub struct Loadout {
    pub name: String,
    pub primary_weapon: WeaponType,
    pub secondary_item: Option<WeaponType>,
    pub armor_type: ArmorType,
    pub active_abilities: Vec<String>,
}

impl Loadout {
    /// The names of the loadout's active abilities.
    pub open spec fn ability_names(self) -> Seq<Seq<char>> {
        self.active_abilities@.map_values(|a: String| a@)
    }
}

/// The skill levels that the loadout builders read.
#[derive(Debug, Clone, Copy)]
pub struct LoadoutSkills {
    pub swordsmanship: u32,
    pub axe_mastery: u32,
    pub shield_defense: u32,
    pub restoration: u32,
    pub fire_magic: u32,
    pub archery: u32,
    pub smithing: u32,
    pub alchemy: u32,
    pub stealth: u32,
    pub lockpicking: u32,
}

fn ability(name: &str) -> (ability: String)
    ensures
        ability@ == name@,
{
    String::from_str(name)
}

/// A tank loadout: sword, or axe when axe mastery is higher; a shield from
/// shield defense 5; heavy armor; a basic slash, then a shield bash (from
/// shield defense 1, else a heavy strike), then a taunt (from shield defense
/// 10, else a block).
pub open spec fn is_tank_loadout(skills: LoadoutSkills, loadout: Loadout) -> bool {
    &&& loadout.name@ == "Tank Build"@
    &&& loadout.primary_weapon == (if skills.swordsmanship >= skills.axe_mastery {
            WeaponType::Sword
        } else {
            WeaponType::Axe
        })
    &&& loadout.secondary_item == (if skills.shield_defense >= 5 {
            Some(WeaponType::Shield)
        } else {
            None
        })
    &&& loadout.armor_type == ArmorType::Heavy
    &&& loadout.ability_names() == seq![
            "Basic Slash"@,
            if skills.shield_defense >= 1 { "Shield Bash"@ } else { "Heavy Strike"@ },
            if skills.shield_defense >= 10 { "Taunt"@ } else { "Block"@ },
        ]
}

/// Builds the tank loadout for the given skill levels.
pub fn create_tank_loadout(skills: &LoadoutSkills) -> (loadout: Loadout)
    ensures
        is_tank_loadout(*skills, loadout),
{
    let primary_weapon = if skills.swordsmanship >= skills.axe_mastery {
        WeaponType::Sword
    } else {
        WeaponType::Axe
    };
    let secondary_item = if skills.shield_defense >= 5 {
        Some(WeaponType::Shield)
    } else {
        None
    };
    let second = if skills.shield_defense >= 1 {
        ability("Shield Bash")
    } else {
        ability("Heavy Strike")
    };
    let third = if skills.shield_defense >= 10 {
        ability("Taunt")
    } else {
        ability("Block")
    };
    let active_abilities = vec![ability("Basic Slash"), second, third];
    let loadout = Loadout {
        name: String::from_str("Tank Build"),
        primary_weapon,
        secondary_item,
        armor_type: ArmorType::Heavy,
        active_abilities,
    };
    assert(loadout.ability_names() =~= seq![
        "Basic Slash"@,
        if skills.shield_defense >= 1 { "Shield Bash"@ } else { "Heavy Strike"@ },
        if skills.shield_defense >= 10 { "Taunt"@ } else { "Block"@ },
    ]);
    loadout
}

/// A healer loadout: restoration staff, light armor; a heal, then a renew
/// (from restoration 5, else a heal), then a group heal (from restoration 10,
/// else a renew).
pub open spec fn is_healer_loadout(skills: LoadoutSkills, loadout: Loadout) -> bool {
    &&& loadout.name@ == "Healer Build"@
    &&& loadout.primary_weapon == WeaponType::RestorationStaff
    &&& loadout.secondary_item == None::<WeaponType>
    &&& loadout.armor_type == ArmorType::Light
    &&& loadout.ability_names() == seq![
            "Heal"@,
            if skills.restoration >= 5 { "Renew"@ } else { "Heal"@ },
            if skills.restoration >= 10 { "Group Heal"@ } else { "Renew"@ },
        ]
}

/// Builds the healer loadout for the given skill levels.
pub fn create_healer_loadout(skills: &LoadoutSkills) -> (loadout: Loadout)
    ensures
        is_healer_loadout(*skills, loadout),
{
    let second = if skills.restoration >= 5 {
        ability("Renew")
    } else {
        ability("Heal")
    };
    let third = if skills.restoration >= 10 {
        ability("Group Heal")
    } else {
        ability("Renew")
    };
    let active_abilities = vec![ability("Heal"), second, third];
    let loadout = Loadout {
        name: String::from_str("Healer Build"),
        primary_weapon: WeaponType::RestorationStaff,
        secondary_item: None,
        armor_type: ArmorType::Light,
        active_abilities,
    };
    assert(loadout.ability_names() =~= seq![
        "Heal"@,
        if skills.restoration >= 5 { "Renew"@ } else { "Heal"@ },
        if skills.restoration >= 10 { "Group Heal"@ } else { "Renew"@ },
    ]);
    loadout
}

/// The weapon and armor of a damage loadout: fire staff and light armor when
/// fire magic is at least archery and swordsmanship, else bow and medium
/// armor when archery is at least swordsmanship, else a two-handed sword and
/// medium armor.
pub open spec fn dps_equipment(skills: LoadoutSkills) -> (WeaponType, ArmorType) {
    if skills.fire_magic >= skills.archery && skills.fire_magic >= skills.swordsmanship {
        (WeaponType::FireStaff, ArmorType::Light)
    } else if skills.archery >= skills.swordsmanship {
        (WeaponType::Bow, ArmorType::Medium)
    } else {
        (WeaponType::TwoHandedSword, ArmorType::Medium)
    }
}

/// A damage loadout: the equipment of `dps_equipment`, with one ability that
/// fits the weapon (firebolt, quick shot, else a basic slash).
pub open spec fn is_dps_loadout(skills: LoadoutSkills, loadout: Loadout) -> bool {
    &&& loadout.name@ == "DPS Build"@
    &&& loadout.primary_weapon == dps_equipment(skills).0
    &&& loadout.secondary_item == None::<WeaponType>
    &&& loadout.armor_type == dps_equipment(skills).1
    &&& loadout.ability_names() == seq![
            match dps_equipment(skills).0 {
                WeaponType::FireStaff => "Firebolt"@,
                WeaponType::Bow => "Quick Shot"@,
                _ => "Basic Slash"@,
            },
        ]
}

/// The level of the skill that wields a damage weapon.
pub open spec fn damage_skill_level(skills: LoadoutSkills, weapon: WeaponType) -> u32 {
    match weapon {
        WeaponType::FireStaff => skills.fire_magic,
        WeaponType::Bow => skills.archery,
        _ => skills.swordsmanship,
    }
}

/// A damage loadout wields the weapon of the highest of fire magic, archery
/// and swordsmanship (ties go to the fire staff, then to the bow): a fire
/// staff only when fire magic is at least both others, a two-handed sword
/// only when swordsmanship is above both. The fire staff comes with light
/// armor, the others with medium armor, and the one ability fits the weapon.
pub proof fn lemma_dps_loadout_uses_best_damage_skill(skills: LoadoutSkills, loadout: Loadout)
    requires
        is_dps_loadout(skills, loadout),
    ensures
        loadout.primary_weapon == WeaponType::FireStaff || loadout.primary_weapon == WeaponType::Bow
            || loadout.primary_weapon == WeaponType::TwoHandedSword,
        damage_skill_level(skills, loadout.primary_weapon) >= skills.fire_magic,
        damage_skill_level(skills, loadout.primary_weapon) >= skills.archery,
        damage_skill_level(skills, loadout.primary_weapon) >= skills.swordsmanship,
        (loadout.primary_weapon == WeaponType::FireStaff) <==> (skills.fire_magic >= skills.archery
            && skills.fire_magic >= skills.swordsmanship),
        loadout.primary_weapon == WeaponType::TwoHandedSword ==> skills.swordsmanship
            > skills.archery && skills.swordsmanship > skills.fire_magic,
        (loadout.armor_type == ArmorType::Light) <==> (loadout.primary_weapon
            == WeaponType::FireStaff),
        loadout.armor_type == ArmorType::Light || loadout.armor_type == ArmorType::Medium,
        loadout.ability_names().len() == 1,
        loadout.primary_weapon == WeaponType::FireStaff ==> loadout.ability_names()[0]
            == "Firebolt"@,
        loadout.primary_weapon == WeaponType::Bow ==> loadout.ability_names()[0] == "Quick Shot"@,
        loadout.primary_weapon == WeaponType::TwoHandedSword ==> loadout.ability_names()[0]
            == "Basic Slash"@,
        loadout.secondary_item is None,
{
}

/// A tank loadout wields the better of sword and axe (a sword on a tie),
/// carries a shield exactly from shield defense 5, wears heavy armor, and
/// its abilities improve with shield defense: a shield bash from 1 and a
/// taunt from 10.
pub proof fn lemma_tank_loadout_uses_best_melee_skill(skills: LoadoutSkills, loadout: Loadout)
    requires
        is_tank_loadout(skills, loadout),
    ensures
        loadout.primary_weapon == WeaponType::Sword || loadout.primary_weapon == WeaponType::Axe,
        loadout.primary_weapon == WeaponType::Sword ==> skills.swordsmanship >= skills.axe_mastery,
        loadout.primary_weapon == WeaponType::Axe ==> skills.axe_mastery > skills.swordsmanship,
        (loadout.secondary_item == Some(WeaponType::Shield)) <==> skills.shield_defense >= 5,
        loadout.secondary_item is None <==> skills.shield_defense < 5,
        loadout.armor_type == ArmorType::Heavy,
        loadout.ability_names().len() == 3,
        loadout.ability_names()[0] == "Basic Slash"@,
        (loadout.ability_names()[1] == "Shield Bash"@) <==> skills.shield_defense >= 1,
        (loadout.ability_names()[2] == "Taunt"@) <==> skills.shield_defense >= 10,
{
    reveal_strlit("Shield Bash");
    reveal_strlit("Heavy Strike");
    reveal_strlit("Taunt");
    reveal_strlit("Block");
    assert("Shield Bash"@.len() != "Heavy Strike"@.len());
    assert("Taunt"@[0] != "Block"@[0]);
}

/// A support loadout wields a hammer when smithing is at least alchemy and
/// a dagger otherwise.
pub proof fn lemma_support_loadout_follows_crafting_skill(skills: LoadoutSkills, loadout: Loadout)
    requires
        is_support_loadout(skills, loadout),
    ensures
        (loadout.primary_weapon == WeaponType::Hammer) <==> skills.smithing >= skills.alchemy,
        (loadout.primary_weapon == WeaponType::Dagger) <==> skills.smithing < skills.alchemy,
        loadout.armor_type == ArmorType::Medium,
{
}

/// Healer and utility loadouts unlock their stronger abilities at the
/// documented skill levels: renew from restoration 5 and group heal from 10;
/// advanced lockpicking from lockpicking 5 and invisibility from stealth 10.
pub proof fn lemma_ability_thresholds(skills: LoadoutSkills, healer: Loadout, utility: Loadout)
    requires
        is_healer_loadout(skills, healer),
        is_utility_loadout(skills, utility),
    ensures
        healer.primary_weapon == WeaponType::RestorationStaff,
        healer.ability_names().len() == 3,
        (healer.ability_names()[1] == "Renew"@) <==> skills.restoration >= 5,
        (healer.ability_names()[2] == "Group Heal"@) <==> skills.restoration >= 10,
        utility.primary_weapon == WeaponType::Dagger,
        utility.ability_names().len() == 3,
        (utility.ability_names()[1] == "Advanced Lockpicking"@) <==> skills.lockpicking >= 5,
        (utility.ability_names()[2] == "Invisibility"@) <==> skills.stealth >= 10,
{
    reveal_strlit("Renew");
    reveal_strlit("Heal");
    reveal_strlit("Group Heal");
    reveal_strlit("Advanced Lockpicking");
    reveal_strlit("Lockpicking");
    reveal_strlit("Invisibility");
    reveal_strlit("Hide");
    assert("Renew"@.len() != "Heal"@.len());
    assert("Group Heal"@.len() != "Renew"@.len());
    assert("Advanced Lockpicking"@.len() != "Lockpicking"@.len());
    assert("Invisibility"@.len() != "Hide"@.len());
}

/// Builds the damage loadout for the given skill levels.
pub fn create_dps_loadout(skills: &LoadoutSkills) -> (loadout: Loadout)
    ensures
        is_dps_loadout(*skills, loadout),
{
    let (primary_weapon, armor_type) = if skills.fire_magic >= skills.archery
        && skills.fire_magic >= skills.swordsmanship {
        (WeaponType::FireStaff, ArmorType::Light)
    } else if skills.archery >= skills.swordsmanship {
        (WeaponType::Bow, ArmorType::Medium)
    } else {
        (WeaponType::TwoHandedSword, ArmorType::Medium)
    };
    let first = match primary_weapon {
        WeaponType::FireStaff => ability("Firebolt"),
        WeaponType::Bow => ability("Quick Shot"),
        _ => ability("Basic Slash"),
    };
    let active_abilities = vec![first];
    let loadout = Loadout {
        name: String::from_str("DPS Build"),
        primary_weapon,
        secondary_item: None,
        armor_type,
        active_abilities,
    };
    assert(loadout.ability_names() =~= seq![
        match dps_equipment(*skills).0 {
            WeaponType::FireStaff => "Firebolt"@,
            WeaponType::Bow => "Quick Shot"@,
            _ => "Basic Slash"@,
        },
    ]);
    loadout
}

/// A support loadout: hammer when smithing is at least alchemy, else dagger;
/// medium armor; craft, repair and gather.
pub open spec fn is_support_loadout(skills: LoadoutSkills, loadout: Loadout) -> bool {
    &&& loadout.name@ == "Support Build"@
    &&& loadout.primary_weapon == (if skills.smithing >= skills.alchemy {
            WeaponType::Hammer
        } else {
            WeaponType::Dagger
        })
    &&& loadout.secondary_item == None::<WeaponType>
    &&& loadout.armor_type == ArmorType::Medium
    &&& loadout.ability_names() == seq!["Craft"@, "Repair"@, "Gather"@]
}

/// Builds the support loadout for the given skill levels.
pub fn create_support_loadout(skills: &LoadoutSkills) -> (loadout: Loadout)
    ensures
        is_support_loadout(*skills, loadout),
{
    let primary_weapon = if skills.smithing >= skills.alchemy {
        WeaponType::Hammer
    } else {
        WeaponType::Dagger
    };
    let active_abilities = vec![ability("Craft"), ability("Repair"), ability("Gather")];
    let loadout = Loadout {
        name: String::from_str("Support Build"),
        primary_weapon,
        secondary_item: None,
        armor_type: ArmorType::Medium,
        active_abilities,
    };
    assert(loadout.ability_names() =~= seq!["Craft"@, "Repair"@, "Gather"@]);
    loadout
}

/// A utility loadout: dagger, light armor; stealth, then advanced
/// lockpicking (from lockpicking 5, else lockpicking), then invisibility
/// (from stealth 10, else hide).
pub open spec fn is_utility_loadout(skills: LoadoutSkills, loadout: Loadout) -> bool {
    &&& loadout.name@ == "Utility Build"@
    &&& loadout.primary_weapon == WeaponType::Dagger
    &&& loadout.secondary_item == None::<WeaponType>
    &&& loadout.armor_type == ArmorType::Light
    &&& loadout.ability_names() == seq![
            "Stealth"@,
            if skills.lockpicking >= 5 { "Advanced Lockpicking"@ } else { "Lockpicking"@ },
            if skills.stealth >= 10 { "Invisibility"@ } else { "Hide"@ },
        ]
}

/// Builds the utility loadout for the given skill levels.
pub fn create_utility_loadout(skills: &LoadoutSkills) -> (loadout: Loadout)
    ensures
        is_utility_loadout(*skills, loadout),
{
    let second = if skills.lockpicking >= 5 {
        ability("Advanced Lockpicking")
    } else {
        ability("Lockpicking")
    };
    let third = if skills.stealth >= 10 {
        ability("Invisibility")
    } else {
        ability("Hide")
    };
    let active_abilities = vec![ability("Stealth"), second, third];
    let loadout = Loadout {
        name: String::from_str("Utility Build"),
        primary_weapon: WeaponType::Dagger,
        secondary_item: None,
        armor_type: ArmorType::Light,
        active_abilities,
    };
    assert(loadout.ability_names() =~= seq![
        "Stealth"@,
        if skills.lockpicking >= 5 { "Advanced Lockpicking"@ } else { "Lockpicking"@ },
        if skills.stealth >= 10 { "Invisibility"@ } else { "Hide"@ },
    ]);
    loadout
}

/// The roles in the order in which their capability scores are compared.
pub open spec fn role_at(index: int) -> RoleType {
    if index == 0 {
        RoleType::Tank
    } else if index == 1 {
        RoleType::Healer
    } else if index == 2 {
        RoleType::DPS
    } else if index == 3 {
        RoleType::Support
    } else {
        RoleType::Utility
    }
}

/// The role with the highest capability score, where `scores` holds the
/// scores of tank, healer, damage, support and utility in that order. Of
/// roles with equal highest scores, the last one in that order is chosen.
pub fn primary_role_for_scores(scores: [u32; 5]) -> (role: RoleType)
    ensures
        is_primary_role(role, scores@),
{
    let mut best: usize = 0;
    let mut i: usize = 1;
    while i < 5
        invariant
            1 <= i <= 5,
            best < i,
            forall|j: int| 0 <= j < i ==> #[trigger] scores@[j] <= scores@[best as int],
            forall|j: int| best < j < i ==> #[trigger] scores@[j] < scores@[best as int],
        decreases 5 - i,
    {
        if scores[i] >= scores[best] {
            best = i;
        }
        i = i + 1;
    }
    let role = if best == 0 {
        RoleType::Tank
    } else if best == 1 {
        RoleType::Healer
    } else if best == 2 {
        RoleType::DPS
    } else if best == 3 {
        RoleType::Support
    } else {
        RoleType::Utility
    };
    assert(role == role_at(best as int));
    role
}

/// The loadout built for `role`: the tank, healer, damage, support or utility
/// loadout.
pub fn create_loadout_for_role(role: RoleType, skills: &LoadoutSkills) -> (loadout: Loadout)
    ensures
        is_loadout_for_role(role, *skills, loadout),
{
    match role {
        RoleType::Tank => create_tank_loadout(skills),
        RoleType::Healer => create_healer_loadout(skills),
        RoleType::DPS => create_dps_loadout(skills),
        RoleType::Support => create_support_loadout(skills),
        RoleType::Utility => create_utility_loadout(skills),
    }
}

/// `loadout` is the loadout built for `role` from `skills`.
pub open spec fn is_loadout_for_role(role: RoleType, skills: LoadoutSkills, loadout: Loadout) -> bool {
    match role {
        RoleType::Tank => is_tank_loadout(skills, loadout),
        RoleType::Healer => is_healer_loadout(skills, loadout),
        RoleType::DPS => is_dps_loadout(skills, loadout),
        RoleType::Support => is_support_loadout(skills, loadout),
        RoleType::Utility => is_utility_loadout(skills, loadout),
    }
}

/// The role with the highest capability score (the last such role, in the
/// order of `role_at`), where `scores` holds the scores in that order.
pub open spec fn is_primary_role(role: RoleType, scores: Seq<u32>) -> bool {
    exists|k: int|
        0 <= k < 5 && role == role_at(k) && (forall|j: int|
            0 <= j < 5 ==> #[trigger] scores[j] <= scores[k]) && (forall|j: int|
            k < j < 5 ==> #[trigger] scores[j] < scores[k])
}

/// A character's loadouts, the active one, and whether the character is at
/// a rest point (an inn, a campfire), the only place where loadouts may be
/// changed.
pub struct LoadoutSet {
    pub loadouts: Vec<Loadout>,
    pub active_loadout_index: usize,
    pub can_switch_loadouts: bool,
}

/// A loadout command of the player.
#[derive(Debug, Clone, Copy, PartialEq, Eq, Structural)]
pub enum LoadoutKey {
    /// Arrive at or leave a rest point.
    ToggleRestPoint,
    /// Switch to the previous loadout.
    Previous,
    /// Switch to the next loadout.
    Next,
    /// Build a loadout for the character's best role and switch to it.
    CreateForBestRole,
}

/// What a loadout command did.
#[derive(Debug, Clone, Copy, PartialEq, Eq, Structural)]
pub enum LoadoutEvent {
    SwitchingEnabled,
    SwitchingDisabled,
    Switched(usize),
    Created(RoleType, usize),
    Ignored,
}

impl LoadoutSet {
    /// The active loadout, if the active index names one.
    pub fn active_loadout(&self) -> (active: Option<&Loadout>)
        ensures
            self.active_loadout_index < self.loadouts@.len() ==> active == Some(
                &self.loadouts@[self.active_loadout_index as int],
            ),
            self.active_loadout_index >= self.loadouts@.len() ==> active is None,
    {
        if self.active_loadout_index < self.loadouts.len() {
            Some(&self.loadouts[self.active_loadout_index])
        } else {
            None
        }
    }

    /// Carries out a loadout command. Arriving at or leaving a rest point
    /// toggles whether loadouts may be changed; every other command is
    /// ignored away from a rest point. At a rest point, the previous command
    /// steps back (wrapping, and only with more than one loadout), the next
    /// command steps forward (wrapping; ignored without loadouts), and the
    /// create command adds the loadout built for the role with the highest
    /// capability score (`scores`: tank, healer, damage, support, utility)
    /// and makes it active.
    pub fn apply_loadout_key(
        &mut self,
        key: LoadoutKey,
        skills: &LoadoutSkills,
        scores: [u32; 5],
    ) -> (event: LoadoutEvent)
        ensures
            key == LoadoutKey::ToggleRestPoint ==> {
                &&& final(self).can_switch_loadouts == !old(self).can_switch_loadouts
                &&& final(self).loadouts@ == old(self).loadouts@
                &&& final(self).active_loadout_index == old(self).active_loadout_index
                &&& event == if old(self).can_switch_loadouts {
                    LoadoutEvent::SwitchingDisabled
                } else {
                    LoadoutEvent::SwitchingEnabled
                }
            },
            key != LoadoutKey::ToggleRestPoint && !old(self).can_switch_loadouts ==> {
                &&& final(self).loadouts@ == old(self).loadouts@
                &&& final(self).active_loadout_index == old(self).active_loadout_index
                &&& final(self).can_switch_loadouts == old(self).can_switch_loadouts
                &&& event == LoadoutEvent::Ignored
            },
            key != LoadoutKey::ToggleRestPoint ==> final(self).can_switch_loadouts == old(
                self,
            ).can_switch_loadouts,
            key != LoadoutKey::CreateForBestRole ==> final(self).loadouts@ == old(self).loadouts@,
            ({
                let len = old(self).loadouts@.len() as int;
                let active = old(self).active_loadout_index as int;
                let previous = if active == 0 { len - 1 } else { active - 1 };
                key == LoadoutKey::Previous && old(self).can_switch_loadouts ==> if len > 1
                    && previous < len {
                    final(self).active_loadout_index == previous && event
                        == LoadoutEvent::Switched(previous as usize)
                } else {
                    final(self).active_loadout_index == active && event == LoadoutEvent::Ignored
                }
            }),
            ({
                let len = old(self).loadouts@.len() as int;
                let active = old(self).active_loadout_index as int;
                key == LoadoutKey::Next && old(self).can_switch_loadouts ==> if len > 0 {
                    final(self).active_loadout_index == (active + 1) % len && event
                        == LoadoutEvent::Switched(((active + 1) % len) as usize)
                } else {
                    final(self).active_loadout_index == active && event == LoadoutEvent::Ignored
                }
            }),
            key == LoadoutKey::CreateForBestRole && old(self).can_switch_loadouts ==> {
                &&& final(self).loadouts@.len() == old(self).loadouts@.len() + 1
                &&& final(self).loadouts@.drop_last() == old(self).loadouts@
                &&& final(self).active_loadout_index == old(self).loadouts@.len()
                &&& event matches LoadoutEvent::Created(role, index) && index
                    == old(self).loadouts@.len() && is_primary_role(role, scores@)
                    && is_loadout_for_role(role, *skills, final(self).loadouts@.last())
            },
    {
        match key {
            LoadoutKey::ToggleRestPoint => {
                if self.can_switch_loadouts {
                    self.can_switch_loadouts = false;
                    LoadoutEvent::SwitchingDisabled
                } else {
                    self.can_switch_loadouts = true;
                    LoadoutEvent::SwitchingEnabled
                }
            },
            _ => {
                if !self.can_switch_loadouts {
                    return LoadoutEvent::Ignored;
                }
                let len = self.loadouts.len();
                match key {
                    LoadoutKey::Previous => {
                        if len > 1 {
                            let previous = previous_index(self.active_loadout_index, len);
                            if previous < len {
                                self.active_loadout_index = previous;
                                return LoadoutEvent::Switched(previous);
                            }
                        }
                        LoadoutEvent::Ignored
                    },
                    LoadoutKey::Next => {
                        if len > 0 {
                            let next = next_index(self.active_loadout_index, len);
                            self.active_loadout_index = next;
                            LoadoutEvent::Switched(next)
                        } else {
                            LoadoutEvent::Ignored
                        }
                    },
                    _ => {
                        let role = primary_role_for_scores(scores);
                        let loadout = create_loadout_for_role(role, skills);
                        let ghost before = self.loadouts@;
                        self.loadouts.push(loadout);
                        assert(self.loadouts@.drop_last() =~= before);
                        self.active_loadout_index = len;
                        LoadoutEvent::Created(role, len)
                    },
                }
            },
        }
    }
}

} // verus!
