//! The environment objects placed in the world (trees, rocks, bushes,
//! grass), the model assets that represent them, and when they can be
//! placed.
use vstd::prelude::*;

verus! {

/// Tree variations.
#[derive(Debug, Clone, Copy, PartialEq, Eq, Structural)]
pub enum TreeType {
    Tree1A,
    Tree1B,
    Tree1C,
    Tree2A,
    Tree2B,
    Tree2C,
    Tree2D,
    Tree2E,
    Tree3A,
    Tree3B,
    Tree3C,
    Tree4A,
    Tree4B,
    Tree4C,
    TreeBare1A,
    TreeBare1B,
    TreeBare1C,
    TreeBare2A,
    TreeBare2B,
    TreeBare2C,
}

/// Rock variations.
#[derive(Debug, Clone, Copy, PartialEq, Eq, Structural)]
pub enum RockType {
    Rock1A,
    Rock1B,
    Rock1C,
    Rock1D,
    Rock1E,
    Rock1F,
    Rock1G,
    Rock1H,
    Rock1I,
    Rock1J,
    Rock1K,
    Rock1L,
    Rock1M,
    Rock1N,
    Rock1O,
    Rock1P,
    Rock1Q,
    Rock2A,
    Rock2B,
    Rock2C,
    Rock2D,
    Rock2E,
    Rock2F,
    Rock2G,
    Rock2H,
    Rock3A,
    Rock3B,
    Rock3C,
    Rock3D,
    Rock3E,
    Rock3F,
    Rock3G,
    Rock3H,
    Rock3I,
    Rock3J,
    Rock3K,
    Rock3L,
    Rock3M,
    Rock3N,
    Rock3O,
    Rock3P,
    Rock3Q,
    Rock3R,
}

/// Bush variations.
#[derive(Debug, Clone, Copy, PartialEq, Eq, Structural)]
pub enum BushType {
    Bush1A,
    Bush1B,
    Bush1C,
    Bush1D,
    Bush1E,
    Bush1F,
    Bush1G,
    Bush2A,
    Bush2B,
    Bush2C,
    Bush2D,
    Bush2E,
    Bush2F,
    Bush3A,
    Bush3B,
    Bush3C,
    Bush4A,
    Bush4B,
    Bush4C,
    Bush4D,
    Bush4E,
    Bush4F,
}

/// Grass variations.
#[derive(Debug, Clone, Copy, PartialEq, Eq, Structural)]
pub enum GrassType {
    Grass1A,
    Grass1B,
    Grass1C,
    Grass1D,
    Grass2A,
    Grass2B,
    Grass2C,
    Grass2D,
}

/// The kinds of environment object.
#[derive(Debug, Clone, Copy, PartialEq, Eq, Structural)]
pub enum WorldObjectType {
    Tree(TreeType),
    Rock(RockType),
    Bush(BushType),
    Grass(GrassType),
}

/// The asset path of a tree model.
pub open spec fn tree_path(value: TreeType) -> Seq<char> {
    match value {
        TreeType::Tree1A => "KayKit_Forest_Nature_Pack_1.0_FREE/Assets/gltf/Tree_1_A_Color1.gltf"@,
        TreeType::Tree1B => "KayKit_Forest_Nature_Pack_1.0_FREE/Assets/gltf/Tree_1_B_Color1.gltf"@,
        TreeType::Tree1C => "KayKit_Forest_Nature_Pack_1.0_FREE/Assets/gltf/Tree_1_C_Color1.gltf"@,
        TreeType::Tree2A => "KayKit_Forest_Nature_Pack_1.0_FREE/Assets/gltf/Tree_2_A_Color1.gltf"@,
        TreeType::Tree2B => "KayKit_Forest_Nature_Pack_1.0_FREE/Assets/gltf/Tree_2_B_Color1.gltf"@,
        TreeType::Tree2C => "KayKit_Forest_Nature_Pack_1.0_FREE/Assets/gltf/Tree_2_C_Color1.gltf"@,
        TreeType::Tree2D => "KayKit_Forest_Nature_Pack_1.0_FREE/Assets/gltf/Tree_2_D_Color1.gltf"@,
        TreeType::Tree2E => "KayKit_Forest_Nature_Pack_1.0_FREE/Assets/gltf/Tree_2_E_Color1.gltf"@,
        TreeType::Tree3A => "KayKit_Forest_Nature_Pack_1.0_FREE/Assets/gltf/Tree_3_A_Color1.gltf"@,
        TreeType::Tree3B => "KayKit_Forest_Nature_Pack_1.0_FREE/Assets/gltf/Tree_3_B_Color1.gltf"@,
        TreeType::Tree3C => "KayKit_Forest_Nature_Pack_1.0_FREE/Assets/gltf/Tree_3_C_Color1.gltf"@,
        TreeType::Tree4A => "KayKit_Forest_Nature_Pack_1.0_FREE/Assets/gltf/Tree_4_A_Color1.gltf"@,
        TreeType::Tree4B => "KayKit_Forest_Nature_Pack_1.0_FREE/Assets/gltf/Tree_4_B_Color1.gltf"@,
        TreeType::Tree4C => "KayKit_Forest_Nature_Pack_1.0_FREE/Assets/gltf/Tree_4_C_Color1.gltf"@,
        TreeType::TreeBare1A => "KayKit_Forest_Nature_Pack_1.0_FREE/Assets/gltf/Tree_Bare_1_A_Color1.gltf"@,
        TreeType::TreeBare1B => "KayKit_Forest_Nature_Pack_1.0_FREE/Assets/gltf/Tree_Bare_1_B_Color1.gltf"@,
        TreeType::TreeBare1C => "KayKit_Forest_Nature_Pack_1.0_FREE/Assets/gltf/Tree_Bare_1_C_Color1.gltf"@,
        TreeType::TreeBare2A => "KayKit_Forest_Nature_Pack_1.0_FREE/Assets/gltf/Tree_Bare_2_A_Color1.gltf"@,
        TreeType::TreeBare2B => "KayKit_Forest_Nature_Pack_1.0_FREE/Assets/gltf/Tree_Bare_2_B_Color1.gltf"@,
        TreeType::TreeBare2C => "KayKit_Forest_Nature_Pack_1.0_FREE/Assets/gltf/Tree_Bare_2_C_Color1.gltf"@,
    }
}

impl TreeType {
    /// The asset path of the model.
    pub fn get_path(&self) -> (path: &'static str)
        ensures
            path@ == tree_path(*self),
    {
        match self {
            TreeType::Tree1A => "KayKit_Forest_Nature_Pack_1.0_FREE/Assets/gltf/Tree_1_A_Color1.gltf",
            TreeType::Tree1B => "KayKit_Forest_Nature_Pack_1.0_FREE/Assets/gltf/Tree_1_B_Color1.gltf",
            TreeType::Tree1C => "KayKit_Forest_Nature_Pack_1.0_FREE/Assets/gltf/Tree_1_C_Color1.gltf",
            TreeType::Tree2A => "KayKit_Forest_Nature_Pack_1.0_FREE/Assets/gltf/Tree_2_A_Color1.gltf",
            TreeType::Tree2B => "KayKit_Forest_Nature_Pack_1.0_FREE/Assets/gltf/Tree_2_B_Color1.gltf",
            TreeType::Tree2C => "KayKit_Forest_Nature_Pack_1.0_FREE/Assets/gltf/Tree_2_C_Color1.gltf",
            TreeType::Tree2D => "KayKit_Forest_Nature_Pack_1.0_FREE/Assets/gltf/Tree_2_D_Color1.gltf",
            TreeType::Tree2E => "KayKit_Forest_Nature_Pack_1.0_FREE/Assets/gltf/Tree_2_E_Color1.gltf",
            TreeType::Tree3A => "KayKit_Forest_Nature_Pack_1.0_FREE/Assets/gltf/Tree_3_A_Color1.gltf",
            TreeType::Tree3B => "KayKit_Forest_Nature_Pack_1.0_FREE/Assets/gltf/Tree_3_B_Color1.gltf",
            TreeType::Tree3C => "KayKit_Forest_Nature_Pack_1.0_FREE/Assets/gltf/Tree_3_C_Color1.gltf",
            TreeType::Tree4A => "KayKit_Forest_Nature_Pack_1.0_FREE/Assets/gltf/Tree_4_A_Color1.gltf",
            TreeType::Tree4B => "KayKit_Forest_Nature_Pack_1.0_FREE/Assets/gltf/Tree_4_B_Color1.gltf",
            TreeType::Tree4C => "KayKit_Forest_Nature_Pack_1.0_FREE/Assets/gltf/Tree_4_C_Color1.gltf",
            TreeType::TreeBare1A => "KayKit_Forest_Nature_Pack_1.0_FREE/Assets/gltf/Tree_Bare_1_A_Color1.gltf",
            TreeType::TreeBare1B => "KayKit_Forest_Nature_Pack_1.0_FREE/Assets/gltf/Tree_Bare_1_B_Color1.gltf",
            TreeType::TreeBare1C => "KayKit_Forest_Nature_Pack_1.0_FREE/Assets/gltf/Tree_Bare_1_C_Color1.gltf",
            TreeType::TreeBare2A => "KayKit_Forest_Nature_Pack_1.0_FREE/Assets/gltf/Tree_Bare_2_A_Color1.gltf",
            TreeType::TreeBare2B => "KayKit_Forest_Nature_Pack_1.0_FREE/Assets/gltf/Tree_Bare_2_B_Color1.gltf",
            TreeType::TreeBare2C => "KayKit_Forest_Nature_Pack_1.0_FREE/Assets/gltf/Tree_Bare_2_C_Color1.gltf",
        }
    }
}

/// The asset path of a rock model.
pub open spec fn rock_path(value: RockType) -> Seq<char> {
    match value {
        RockType::Rock1A => "KayKit_Forest_Nature_Pack_1.0_FREE/Assets/gltf/Rock_1_A_Color1.gltf"@,
        RockType::Rock1B => "KayKit_Forest_Nature_Pack_1.0_FREE/Assets/gltf/Rock_1_B_Color1.gltf"@,
        RockType::Rock1C => "KayKit_Forest_Nature_Pack_1.0_FREE/Assets/gltf/Rock_1_C_Color1.gltf"@,
        RockType::Rock1D => "KayKit_Forest_Nature_Pack_1.0_FREE/Assets/gltf/Rock_1_D_Color1.gltf"@,
        RockType::Rock1E => "KayKit_Forest_Nature_Pack_1.0_FREE/Assets/gltf/Rock_1_E_Color1.gltf"@,
        _ => "KayKit_Forest_Nature_Pack_1.0_FREE/Assets/gltf/Rock_1_A_Color1.gltf"@,
    }
}

impl RockType {
    /// The asset path of the model; variations without an asset of their own
    /// use the model of the first variation.
    pub fn get_path(&self) -> (path: &'static str)
        ensures
            path@ == rock_path(*self),
    {
        match self {
            RockType::Rock1A => "KayKit_Forest_Nature_Pack_1.0_FREE/Assets/gltf/Rock_1_A_Color1.gltf",
            RockType::Rock1B => "KayKit_Forest_Nature_Pack_1.0_FREE/Assets/gltf/Rock_1_B_Color1.gltf",
            RockType::Rock1C => "KayKit_Forest_Nature_Pack_1.0_FREE/Assets/gltf/Rock_1_C_Color1.gltf",
            RockType::Rock1D => "KayKit_Forest_Nature_Pack_1.0_FREE/Assets/gltf/Rock_1_D_Color1.gltf",
            RockType::Rock1E => "KayKit_Forest_Nature_Pack_1.0_FREE/Assets/gltf/Rock_1_E_Color1.gltf",
            _ => "KayKit_Forest_Nature_Pack_1.0_FREE/Assets/gltf/Rock_1_A_Color1.gltf",
        }
    }
}

/// The asset path of a bush model.
pub open spec fn bush_path(value: BushType) -> Seq<char> {
    match value {
        BushType::Bush1A => "KayKit_Forest_Nature_Pack_1.0_FREE/Assets/gltf/Bush_1_A_Color1.gltf"@,
        BushType::Bush1B => "KayKit_Forest_Nature_Pack_1.0_FREE/Assets/gltf/Bush_1_B_Color1.gltf"@,
        BushType::Bush1C => "KayKit_Forest_Nature_Pack_1.0_FREE/Assets/gltf/Bush_1_C_Color1.gltf"@,
        BushType::Bush2A => "KayKit_Forest_Nature_Pack_1.0_FREE/Assets/gltf/Bush_2_A_Color1.gltf"@,
        BushType::Bush2B => "KayKit_Forest_Nature_Pack_1.0_FREE/Assets/gltf/Bush_2_B_Color1.gltf"@,
        BushType::Bush3A => "KayKit_Forest_Nature_Pack_1.0_FREE/Assets/gltf/Bush_3_A_Color1.gltf"@,
        _ => "KayKit_Forest_Nature_Pack_1.0_FREE/Assets/gltf/Bush_1_A_Color1.gltf"@,
    }
}

impl BushType {
    /// The asset path of the model; variations without an asset of their own
    /// use the model of the first variation.
    pub fn get_path(&self) -> (path: &'static str)
        ensures
            path@ == bush_path(*self),
    {
        match self {
            BushType::Bush1A => "KayKit_Forest_Nature_Pack_1.0_FREE/Assets/gltf/Bush_1_A_Color1.gltf",
            BushType::Bush1B => "KayKit_Forest_Nature_Pack_1.0_FREE/Assets/gltf/Bush_1_B_Color1.gltf",
            BushType::Bush1C => "KayKit_Forest_Nature_Pack_1.0_FREE/Assets/gltf/Bush_1_C_Color1.gltf",
            BushType::Bush2A => "KayKit_Forest_Nature_Pack_1.0_FREE/Assets/gltf/Bush_2_A_Color1.gltf",
            BushType::Bush2B => "KayKit_Forest_Nature_Pack_1.0_FREE/Assets/gltf/Bush_2_B_Color1.gltf",
            BushType::Bush3A => "KayKit_Forest_Nature_Pack_1.0_FREE/Assets/gltf/Bush_3_A_Color1.gltf",
            _ => "KayKit_Forest_Nature_Pack_1.0_FREE/Assets/gltf/Bush_1_A_Color1.gltf",
        }
    }
}

impl TreeType {
    /// Every tree variation, in declaration order.
    pub fn get_all_types() -> (types: Vec<TreeType>)
        ensures
            types@ == seq![TreeType::Tree1A, TreeType::Tree1B, TreeType::Tree1C, TreeType::Tree2A, TreeType::Tree2B, TreeType::Tree2C, TreeType::Tree2D, TreeType::Tree2E, TreeType::Tree3A, TreeType::Tree3B, TreeType::Tree3C, TreeType::Tree4A, TreeType::Tree4B, TreeType::Tree4C, TreeType::TreeBare1A, TreeType::TreeBare1B, TreeType::TreeBare1C, TreeType::TreeBare2A, TreeType::TreeBare2B, TreeType::TreeBare2C],
    {
        let types = vec![TreeType::Tree1A, TreeType::Tree1B, TreeType::Tree1C, TreeType::Tree2A, TreeType::Tree2B, TreeType::Tree2C, TreeType::Tree2D, TreeType::Tree2E, TreeType::Tree3A, TreeType::Tree3B, TreeType::Tree3C, TreeType::Tree4A, TreeType::Tree4B, TreeType::Tree4C, TreeType::TreeBare1A, TreeType::TreeBare1B, TreeType::TreeBare1C, TreeType::TreeBare2A, TreeType::TreeBare2B, TreeType::TreeBare2C];
        assert(types@ =~= seq![TreeType::Tree1A, TreeType::Tree1B, TreeType::Tree1C, TreeType::Tree2A, TreeType::Tree2B, TreeType::Tree2C, TreeType::Tree2D, TreeType::Tree2E, TreeType::Tree3A, TreeType::Tree3B, TreeType::Tree3C, TreeType::Tree4A, TreeType::Tree4B, TreeType::Tree4C, TreeType::TreeBare1A, TreeType::TreeBare1B, TreeType::TreeBare1C, TreeType::TreeBare2A, TreeType::TreeBare2B, TreeType::TreeBare2C]);
        types
    }
}

impl RockType {
    /// The rock variations placed in the world.
    pub fn get_common_types() -> (types: Vec<RockType>)
        ensures
            types@ == seq![RockType::Rock1A, RockType::Rock1B, RockType::Rock1C, RockType::Rock1D, RockType::Rock1E, RockType::Rock2A, RockType::Rock2B, RockType::Rock2C, RockType::Rock3A, RockType::Rock3B, RockType::Rock3C],
    {
        let types = vec![RockType::Rock1A, RockType::Rock1B, RockType::Rock1C, RockType::Rock1D, RockType::Rock1E, RockType::Rock2A, RockType::Rock2B, RockType::Rock2C, RockType::Rock3A, RockType::Rock3B, RockType::Rock3C];
        assert(types@ =~= seq![RockType::Rock1A, RockType::Rock1B, RockType::Rock1C, RockType::Rock1D, RockType::Rock1E, RockType::Rock2A, RockType::Rock2B, RockType::Rock2C, RockType::Rock3A, RockType::Rock3B, RockType::Rock3C]);
        types
    }
}

impl BushType {
    /// The bush variations placed in the world.
    pub fn get_common_types() -> (types: Vec<BushType>)
        ensures
            types@ == seq![BushType::Bush1A, BushType::Bush1B, BushType::Bush1C, BushType::Bush2A, BushType::Bush2B, BushType::Bush3A],
    {
        let types = vec![BushType::Bush1A, BushType::Bush1B, BushType::Bush1C, BushType::Bush2A, BushType::Bush2B, BushType::Bush3A];
        assert(types@ =~= seq![BushType::Bush1A, BushType::Bush1B, BushType::Bush1C, BushType::Bush2A, BushType::Bush2B, BushType::Bush3A]);
        types
    }
}

/// Whether the world's objects can be placed yet, and if not, what is
/// missing.
#[derive(Debug, Clone, Copy, PartialEq, Eq, Structural)]
pub enum SpawnReadiness {
    /// The objects were placed before; they are placed only once.
    AlreadySpawned,
    /// No tree model is known yet.
    NoTreeModels,
    /// The terrain's heights are not available yet.
    WaitingForTerrain,
    /// The biomes are not set up yet.
    WaitingForBiomes,
    /// Fewer than three tree models have finished loading.
    WaitingForModels,
    /// Everything needed is there.
    Ready,
}

/// How many of `flags` are set.
pub open spec fn count_set(flags: Seq<bool>) -> nat
    decreases flags.len(),
{
    if flags.len() == 0 {
        0
    } else {
        count_set(flags.drop_last()) + if flags.last() { 1nat } else { 0nat }
    }
}

/// The readiness test before placing the world's objects, in order: placed
/// already, no tree models, no terrain heights, no biomes, fewer than three
/// tree models loaded (`tree_models_loaded` has one flag per tree model).
pub open spec fn spawn_readiness_of(
    already_spawned: bool,
    tree_models_loaded: Seq<bool>,
    has_terrain: bool,
    has_biomes: bool,
) -> SpawnReadiness {
    if already_spawned {
        SpawnReadiness::AlreadySpawned
    } else if tree_models_loaded.len() == 0 {
        SpawnReadiness::NoTreeModels
    } else if !has_terrain {
        SpawnReadiness::WaitingForTerrain
    } else if !has_biomes {
        SpawnReadiness::WaitingForBiomes
    } else if count_set(tree_models_loaded) < 3 {
        SpawnReadiness::WaitingForModels
    } else {
        SpawnReadiness::Ready
    }
}

/// Decides whether the world's objects can be placed now.
pub fn spawn_readiness(
    already_spawned: bool,
    tree_models_loaded: &Vec<bool>,
    has_terrain: bool,
    has_biomes: bool,
) -> (readiness: SpawnReadiness)
    ensures
        readiness == spawn_readiness_of(already_spawned, tree_models_loaded@, has_terrain, has_biomes),
{
    if already_spawned {
        return SpawnReadiness::AlreadySpawned;
    }
    if tree_models_loaded.len() == 0 {
        return SpawnReadiness::NoTreeModels;
    }
    if !has_terrain {
        return SpawnReadiness::WaitingForTerrain;
    }
    if !has_biomes {
        return SpawnReadiness::WaitingForBiomes;
    }
    let mut loaded: usize = 0;
    let mut i: usize = 0;
    while i < tree_models_loaded.len()
        invariant
            i <= tree_models_loaded@.len(),
            loaded == count_set(tree_models_loaded@.take(i as int)),
            loaded <= i,
        decreases tree_models_loaded@.len() - i,
    {
        assert(tree_models_loaded@.take(i + 1).drop_last() =~= tree_models_loaded@.take(i as int));
        if tree_models_loaded[i] {
            loaded = loaded + 1;
        }
        i = i + 1;
    }
    assert(tree_models_loaded@.take(i as int) =~= tree_models_loaded@);
    if loaded < 3 {
        SpawnReadiness::WaitingForModels
    } else {
        SpawnReadiness::Ready
    }
}

/// The world's objects are placed once: never again after they were
/// placed, and only when tree models are known, the terrain and the biomes
/// are there, and at least three tree models have loaded; the number of
/// loaded models never exceeds the number of models.
pub proof fn lemma_spawn_only_when_ready(
    already_spawned: bool,
    tree_models_loaded: Seq<bool>,
    has_terrain: bool,
    has_biomes: bool,
)
    ensures
        already_spawned ==> spawn_readiness_of(already_spawned, tree_models_loaded, has_terrain, has_biomes)
            == SpawnReadiness::AlreadySpawned,
        (spawn_readiness_of(already_spawned, tree_models_loaded, has_terrain, has_biomes)
            == SpawnReadiness::Ready) <==> (!already_spawned && tree_models_loaded.len() > 0
            && has_terrain && has_biomes && count_set(tree_models_loaded) >= 3),
        count_set(tree_models_loaded) <= tree_models_loaded.len(),
        (forall|i: int| 0 <= i < tree_models_loaded.len() ==> #[trigger] tree_models_loaded[i])
            ==> count_set(tree_models_loaded) == tree_models_loaded.len(),
    decreases tree_models_loaded.len(),
{
    if tree_models_loaded.len() > 0 {
        let rest = tree_models_loaded.drop_last();
        lemma_spawn_only_when_ready(already_spawned, rest, has_terrain, has_biomes);
        if forall|i: int| 0 <= i < tree_models_loaded.len() ==> #[trigger] tree_models_loaded[i] {
            assert forall|i: int| 0 <= i < rest.len() implies #[trigger] rest[i] by {
                assert(rest[i] == tree_models_loaded[i]);
            }
            assert(tree_models_loaded[tree_models_loaded.len() - 1]);
        }
    }
}

} // verus!
