use vstd::prelude::*;

verus! {

/// One voxel type from the fixed external registry.
///
/// Each variant carries a stable 16-bit code; `code` and `from_code` realize
/// the bijection between variants and codes, and `lemma_code_round_trip`
/// states that decoding a variant's own code gives that variant back.
#[derive(Copy, Clone, PartialEq, Eq, Structural, Debug, Hash)]
pub enum Block {
    Air,
    Stone,
    Grass,
    Dirt,
    Cobblestone,
    Wood,
    Sapling,
    Bedrock,
    WaterSolid,
    Water,
    LavaSolid,
    Lava,
    Sand,
    Gravel,
    GoldOre,
    IronOre,
    CoalOre,
    Log,
    Leaves,
    Sponge,
    Glass,
    LapisOre,
    LapisBlock,
    Dispenser,
    Sandstone,
    NoteBlock,
    BedBlock,
    PoweredRail,
    DetectorRail,
    PistonStickyBase,
    Web,
    LongGrassBottom,
    LongGrassUp,
    PistonBase,
    PistonExtension,
    Wool,
    PistonMovingPiece,
    YellowFlower,
    RedRose,
    BrownMushroom,
    RedMushroom,
    GoldBlock,
    IronBlock,
    StepDown,
    StepUp,
    Brick,
    Tnt,
    Bookshelf,
    MossyCobblestone,
    Obsidian,
    Torch,
    Fire,
    MobSpawner,
    WoodStairs,
    Chest,
    RedstoneWire,
    DiamondOre,
    DiamondBlock,
    Workbench,
    Crops,
    Soil,
    FurnaceOff,
    FurnaceOn,
    SignPost,
    WoodenDoor,
    Ladder,
    Rails,
    CobblestoneStairs,
    WallSign,
    Lever,
    StonePlate,
    IronDoorBlock,
    WoodPlate,
    RedstoneOreOff,
    RedstoneOreOn,
    RedstoneTorchOff,
    RedstoneTorchOn,
    StoneButton,
    Snow,
    Ice,
    SnowBlock,
    Cactus,
    Clay,
    SugarCaneBlock,
    Jukebox,
    Fence,
    Pumpkin,
    Netherrack,
    SoulSand,
    Glowstone,
    Portal,
    JackOLantern,
    CakeBlock,
    DiodeBlockOff,
    DiodeBlockOn,
    StainedGlass,
    TrapDoor,
    MonsterEggs,
    SmoothBrick,
    HugeMushroom1,
    HugeMushroom2,
    IronFence,
    ThinGlass,
    MelonBlock,
    PumpkinStem,
    MelonStem,
    Vine,
    FenceGate,
    BrickStairs,
    SmoothStairs,
    Mycel,
    WaterLily,
    NetherBrick,
    NetherFence,
    NetherBrickStairs,
    NetherWarts,
    EnchantmentTable,
    BrewingStand,
    Cauldron,
    EnderPortal,
    EnderPortalFrame,
    EnderStone,
    DragonEgg,
    RedstoneLampOff,
    RedstoneLampOn,
    WoodStepDown,
    WoodStepUp,
    Cocoa,
    SandstoneStairs,
    EmeraldOre,
    EnderChest,
    TripwireHook,
    Tripwire,
    EmeraldBlock,
    SpruceWoodStairs,
    BirchWoodStairs,
    JungleWoodStairs,
    Command,
    Beacon,
    CobbleWall,
    FlowerPot,
    Carrot,
    Potato,
    WoodButton,
    Anvil,
    TrappedChest,
    GoldPlate,
    IronPlate,
    RedstoneComparatorOff,
    RedstoneComparatorOn,
    DaylightDetectorOff,
    RedstoneBlock,
    QuartzOre,
    Hopper,
    QuartzBlock,
    QuartzStairs,
    ActivatorRail,
    Dropper,
    StainedClay,
    StainedGlassPane,
    Leaves2,
    Log2,
    AcaciaStairs,
    DarkOakStairs,
    SlimeBlock,
    Barrier,
    IronTrapdoor,
    Prismarine,
    SeaLantern,
    HayBlock,
    Carpet,
    HardClay,
    CoalBlock,
    PackedIce,
    DoublePlant,
    StandingBanner,
    WallBanner,
    DaylightDetectorOn,
    RedSandstone,
    RedSandstoneStairs,
    StoneSlab2,
    SpruceFenceGate,
    BirchFenceGate,
    JungleFenceGate,
    DarkOakFenceGate,
    AcaciaFenceGate,
    SpruceFence,
    BirchFence,
    JungleFence,
    DarkOakFence,
    AcaciaFence,
    SpruceDoor,
    BirchDoor,
    JungleDoor,
    AcaciaDoor,
    DarkOakDoor,
    EndRod,
    ChorusPlant,
    ChorusFlower,
    PurpurBlock,
    PurpurPillar,
    PurpurStairs,
    PurpurSlabBottom,
    PurpurSlabUp,
    EndBricks,
    BeetrootBlock,
    GrassPath,
    EndGateway,
    CommandRepeating,
    CommandChain,
    FrostedIce,
    Magma,
    NetherWartBlock,
    RedNetherBrick,
    BoneBlock,
    StructureVoid,
    Observer,
    WhiteShulkerBox,
    OrangeShulkerBox,
    MagentaShulkerBox,
    LightBlueShulkerBox,
    YellowShulkerBox,
    LimeShulkerBox,
    PinkShulkerBox,
    GrayShulkerBox,
    SilverShulkerBox,
    CyanShulkerBox,
    PurpleShulkerBox,
    BlueShulkerBox,
    BrownShulkerBox,
    GreenShulkerBox,
    RedShulkerBox,
    BlackShulkerBox,
    WhiteGlazedTerracotta,
    OrangeGlazedTerracotta,
    MagentaGlazedTerracotta,
    LightBlueGlazedTerracotta,
    YellowGlazedTerracotta,
    LimeGlazedTerracotta,
    PinkGlazedTerracotta,
    GrayGlazedTerracotta,
    SilverGlazedTerracotta,
    CyanGlazedTerracotta,
    PurpleGlazedTerracotta,
    BlueGlazedTerracotta,
    BrownGlazedTerracotta,
    GreenGlazedTerracotta,
    RedGlazedTerracotta,
    BlackGlazedTerracotta,
    Concrete,
    ConcretePowder,
    StructureBlock,
}

impl Block {
    /// The stable registry code of this voxel type.
    pub open spec fn code_spec(self) -> u16 {
        match self {
            Block::Air => 0,
            Block::Stone => 1,
            Block::Grass => 2,
            Block::Dirt => 3,
            Block::Cobblestone => 4,
            Block::Wood => 5,
            Block::Sapling => 6,
            Block::Bedrock => 7,
            Block::WaterSolid => 8,
            Block::Water => 9,
            Block::LavaSolid => 10,
            Block::Lava => 11,
            Block::Sand => 12,
            Block::Gravel => 13,
            Block::GoldOre => 14,
            Block::IronOre => 15,
            Block::CoalOre => 16,
            Block::Log => 17,
            Block::Leaves => 18,
            Block::Sponge => 19,
            Block::Glass => 20,
            Block::LapisOre => 21,
            Block::LapisBlock => 22,
            Block::Dispenser => 23,
            Block::Sandstone => 24,
            Block::NoteBlock => 25,
            Block::BedBlock => 26,
            Block::PoweredRail => 27,
            Block::DetectorRail => 28,
            Block::PistonStickyBase => 29,
            Block::Web => 30,
            Block::LongGrassBottom => 31,
            Block::LongGrassUp => 32,
            Block::PistonBase => 33,
            Block::PistonExtension => 34,
            Block::Wool => 35,
            Block::PistonMovingPiece => 36,
            Block::YellowFlower => 37,
            Block::RedRose => 38,
            Block::BrownMushroom => 39,
            Block::RedMushroom => 40,
            Block::GoldBlock => 41,
            Block::IronBlock => 42,
            Block::StepDown => 43,
            Block::StepUp => 44,
            Block::Brick => 45,
            Block::Tnt => 46,
            Block::Bookshelf => 47,
            Block::MossyCobblestone => 48,
            Block::Obsidian => 49,
            Block::Torch => 50,
            Block::Fire => 51,
            Block::MobSpawner => 52,
            Block::WoodStairs => 53,
            Block::Chest => 54,
            Block::RedstoneWire => 55,
            Block::DiamondOre => 56,
            Block::DiamondBlock => 57,
            Block::Workbench => 58,
            Block::Crops => 59,
            Block::Soil => 60,
            Block::FurnaceOff => 61,
            Block::FurnaceOn => 62,
            Block::SignPost => 63,
            Block::WoodenDoor => 64,
            Block::Ladder => 65,
            Block::Rails => 66,
            Block::CobblestoneStairs => 67,
            Block::WallSign => 68,
            Block::Lever => 69,
            Block::StonePlate => 70,
            Block::IronDoorBlock => 71,
            Block::WoodPlate => 72,
            Block::RedstoneOreOff => 73,
            Block::RedstoneOreOn => 74,
            Block::RedstoneTorchOff => 75,
            Block::RedstoneTorchOn => 76,
            Block::StoneButton => 77,
            Block::Snow => 78,
            Block::Ice => 79,
            Block::SnowBlock => 80,
            Block::Cactus => 81,
            Block::Clay => 82,
            Block::SugarCaneBlock => 83,
            Block::Jukebox => 84,
            Block::Fence => 85,
            Block::Pumpkin => 86,
            Block::Netherrack => 87,
            Block::SoulSand => 88,
            Block::Glowstone => 89,
            Block::Portal => 90,
            Block::JackOLantern => 91,
            Block::CakeBlock => 92,
            Block::DiodeBlockOff => 93,
            Block::DiodeBlockOn => 94,
            Block::StainedGlass => 95,
            Block::TrapDoor => 96,
            Block::MonsterEggs => 97,
            Block::SmoothBrick => 98,
            Block::HugeMushroom1 => 99,
            Block::HugeMushroom2 => 100,
            Block::IronFence => 101,
            Block::ThinGlass => 102,
            Block::MelonBlock => 103,
            Block::PumpkinStem => 104,
            Block::MelonStem => 105,
            Block::Vine => 106,
            Block::FenceGate => 107,
            Block::BrickStairs => 108,
            Block::SmoothStairs => 109,
            Block::Mycel => 110,
            Block::WaterLily => 111,
            Block::NetherBrick => 112,
            Block::NetherFence => 113,
            Block::NetherBrickStairs => 114,
            Block::NetherWarts => 115,
            Block::EnchantmentTable => 116,
            Block::BrewingStand => 117,
            Block::Cauldron => 118,
            Block::EnderPortal => 119,
            Block::EnderPortalFrame => 120,
            Block::EnderStone => 121,
            Block::DragonEgg => 122,
            Block::RedstoneLampOff => 123,
            Block::RedstoneLampOn => 124,
            Block::WoodStepDown => 125,
            Block::WoodStepUp => 126,
            Block::Cocoa => 127,
            Block::SandstoneStairs => 128,
            Block::EmeraldOre => 129,
            Block::EnderChest => 130,
            Block::TripwireHook => 131,
            Block::Tripwire => 132,
            Block::EmeraldBlock => 133,
            Block::SpruceWoodStairs => 134,
            Block::BirchWoodStairs => 135,
            Block::JungleWoodStairs => 136,
            Block::Command => 137,
            Block::Beacon => 138,
            Block::CobbleWall => 139,
            Block::FlowerPot => 140,
            Block::Carrot => 141,
            Block::Potato => 142,
            Block::WoodButton => 143,
            Block::Anvil => 145,
            Block::TrappedChest => 146,
            Block::GoldPlate => 147,
            Block::IronPlate => 148,
            Block::RedstoneComparatorOff => 149,
            Block::RedstoneComparatorOn => 150,
            Block::DaylightDetectorOff => 151,
            Block::RedstoneBlock => 152,
            Block::QuartzOre => 153,
            Block::Hopper => 154,
            Block::QuartzBlock => 155,
            Block::QuartzStairs => 156,
            Block::ActivatorRail => 157,
            Block::Dropper => 158,
            Block::StainedClay => 159,
            Block::StainedGlassPane => 160,
            Block::Leaves2 => 161,
            Block::Log2 => 162,
            Block::AcaciaStairs => 163,
            Block::DarkOakStairs => 164,
            Block::SlimeBlock => 165,
            Block::Barrier => 166,
            Block::IronTrapdoor => 167,
            Block::Prismarine => 168,
            Block::SeaLantern => 169,
            Block::HayBlock => 170,
            Block::Carpet => 171,
            Block::HardClay => 172,
            Block::CoalBlock => 173,
            Block::PackedIce => 174,
            Block::DoublePlant => 175,
            Block::StandingBanner => 176,
            Block::WallBanner => 177,
            Block::DaylightDetectorOn => 178,
            Block::RedSandstone => 179,
            Block::RedSandstoneStairs => 180,
            Block::StoneSlab2 => 181,
            Block::SpruceFenceGate => 183,
            Block::BirchFenceGate => 184,
            Block::JungleFenceGate => 185,
            Block::DarkOakFenceGate => 186,
            Block::AcaciaFenceGate => 187,
            Block::SpruceFence => 188,
            Block::BirchFence => 189,
            Block::JungleFence => 190,
            Block::DarkOakFence => 191,
            Block::AcaciaFence => 192,
            Block::SpruceDoor => 193,
            Block::BirchDoor => 194,
            Block::JungleDoor => 195,
            Block::AcaciaDoor => 196,
            Block::DarkOakDoor => 197,
            Block::EndRod => 198,
            Block::ChorusPlant => 199,
            Block::ChorusFlower => 200,
            Block::PurpurBlock => 201,
            Block::PurpurPillar => 202,
            Block::PurpurStairs => 203,
            Block::PurpurSlabBottom => 204,
            Block::PurpurSlabUp => 205,
            Block::EndBricks => 206,
            Block::BeetrootBlock => 207,
            Block::GrassPath => 208,
            Block::EndGateway => 209,
            Block::CommandRepeating => 210,
            Block::CommandChain => 211,
            Block::FrostedIce => 212,
            Block::Magma => 213,
            Block::NetherWartBlock => 214,
            Block::RedNetherBrick => 215,
            Block::BoneBlock => 216,
            Block::StructureVoid => 217,
            Block::Observer => 218,
            Block::WhiteShulkerBox => 219,
            Block::OrangeShulkerBox => 220,
            Block::MagentaShulkerBox => 221,
            Block::LightBlueShulkerBox => 222,
            Block::YellowShulkerBox => 223,
            Block::LimeShulkerBox => 224,
            Block::PinkShulkerBox => 225,
            Block::GrayShulkerBox => 226,
            Block::SilverShulkerBox => 227,
            Block::CyanShulkerBox => 228,
            Block::PurpleShulkerBox => 229,
            Block::BlueShulkerBox => 230,
            Block::BrownShulkerBox => 231,
            Block::GreenShulkerBox => 232,
            Block::RedShulkerBox => 233,
            Block::BlackShulkerBox => 234,
            Block::WhiteGlazedTerracotta => 235,
            Block::OrangeGlazedTerracotta => 236,
            Block::MagentaGlazedTerracotta => 237,
            Block::LightBlueGlazedTerracotta => 238,
            Block::YellowGlazedTerracotta => 239,
            Block::LimeGlazedTerracotta => 240,
            Block::PinkGlazedTerracotta => 241,
            Block::GrayGlazedTerracotta => 242,
            Block::SilverGlazedTerracotta => 243,
            Block::CyanGlazedTerracotta => 244,
            Block::PurpleGlazedTerracotta => 245,
            Block::BlueGlazedTerracotta => 246,
            Block::BrownGlazedTerracotta => 247,
            Block::GreenGlazedTerracotta => 248,
            Block::RedGlazedTerracotta => 249,
            Block::BlackGlazedTerracotta => 250,
            Block::Concrete => 251,
            Block::ConcretePowder => 252,
            Block::StructureBlock => 255,
        }
    }

    /// Returns the stable registry code of this voxel type.
    pub fn code(self) -> (r: u16)
        ensures
            r == self.code_spec(),
    {
        match self {
            Block::Air => 0,
            Block::Stone => 1,
            Block::Grass => 2,
            Block::Dirt => 3,
            Block::Cobblestone => 4,
            Block::Wood => 5,
            Block::Sapling => 6,
            Block::Bedrock => 7,
            Block::WaterSolid => 8,
            Block::Water => 9,
            Block::LavaSolid => 10,
            Block::Lava => 11,
            Block::Sand => 12,
            Block::Gravel => 13,
            Block::GoldOre => 14,
            Block::IronOre => 15,
            Block::CoalOre => 16,
            Block::Log => 17,
            Block::Leaves => 18,
            Block::Sponge => 19,
            Block::Glass => 20,
            Block::LapisOre => 21,
            Block::LapisBlock => 22,
            Block::Dispenser => 23,
            Block::Sandstone => 24,
            Block::NoteBlock => 25,
            Block::BedBlock => 26,
            Block::PoweredRail => 27,
            Block::DetectorRail => 28,
            Block::PistonStickyBase => 29,
            Block::Web => 30,
            Block::LongGrassBottom => 31,
            Block::LongGrassUp => 32,
            Block::PistonBase => 33,
            Block::PistonExtension => 34,
            Block::Wool => 35,
            Block::PistonMovingPiece => 36,
            Block::YellowFlower => 37,
            Block::RedRose => 38,
            Block::BrownMushroom => 39,
            Block::RedMushroom => 40,
            Block::GoldBlock => 41,
            Block::IronBlock => 42,
            Block::StepDown => 43,
            Block::StepUp => 44,
            Block::Brick => 45,
            Block::Tnt => 46,
            Block::Bookshelf => 47,
            Block::MossyCobblestone => 48,
            Block::Obsidian => 49,
            Block::Torch => 50,
            Block::Fire => 51,
            Block::MobSpawner => 52,
            Block::WoodStairs => 53,
            Block::Chest => 54,
            Block::RedstoneWire => 55,
            Block::DiamondOre => 56,
            Block::DiamondBlock => 57,
            Block::Workbench => 58,
            Block::Crops => 59,
            Block::Soil => 60,
            Block::FurnaceOff => 61,
            Block::FurnaceOn => 62,
            Block::SignPost => 63,
            Block::WoodenDoor => 64,
            Block::Ladder => 65,
            Block::Rails => 66,
            Block::CobblestoneStairs => 67,
            Block::WallSign => 68,
            Block::Lever => 69,
            Block::StonePlate => 70,
            Block::IronDoorBlock => 71,
            Block::WoodPlate => 72,
            Block::RedstoneOreOff => 73,
            Block::RedstoneOreOn => 74,
            Block::RedstoneTorchOff => 75,
            Block::RedstoneTorchOn => 76,
            Block::StoneButton => 77,
            Block::Snow => 78,
            Block::Ice => 79,
            Block::SnowBlock => 80,
            Block::Cactus => 81,
            Block::Clay => 82,
            Block::SugarCaneBlock => 83,
            Block::Jukebox => 84,
            Block::Fence => 85,
            Block::Pumpkin => 86,
            Block::Netherrack => 87,
            Block::SoulSand => 88,
            Block::Glowstone => 89,
            Block::Portal => 90,
            Block::JackOLantern => 91,
            Block::CakeBlock => 92,
            Block::DiodeBlockOff => 93,
            Block::DiodeBlockOn => 94,
            Block::StainedGlass => 95,
            Block::TrapDoor => 96,
            Block::MonsterEggs => 97,
            Block::SmoothBrick => 98,
            Block::HugeMushroom1 => 99,
            Block::HugeMushroom2 => 100,
            Block::IronFence => 101,
            Block::ThinGlass => 102,
            Block::MelonBlock => 103,
            Block::PumpkinStem => 104,
            Block::MelonStem => 105,
            Block::Vine => 106,
            Block::FenceGate => 107,
            Block::BrickStairs => 108,
            Block::SmoothStairs => 109,
            Block::Mycel => 110,
            Block::WaterLily => 111,
            Block::NetherBrick => 112,
            Block::NetherFence => 113,
            Block::NetherBrickStairs => 114,
            Block::NetherWarts => 115,
            Block::EnchantmentTable => 116,
            Block::BrewingStand => 117,
            Block::Cauldron => 118,
            Block::EnderPortal => 119,
            Block::EnderPortalFrame => 120,
            Block::EnderStone => 121,
            Block::DragonEgg => 122,
            Block::RedstoneLampOff => 123,
            Block::RedstoneLampOn => 124,
            Block::WoodStepDown => 125,
            Block::WoodStepUp => 126,
            Block::Cocoa => 127,
            Block::SandstoneStairs => 128,
            Block::EmeraldOre => 129,
            Block::EnderChest => 130,
            Block::TripwireHook => 131,
            Block::Tripwire => 132,
            Block::EmeraldBlock => 133,
            Block::SpruceWoodStairs => 134,
            Block::BirchWoodStairs => 135,
            Block::JungleWoodStairs => 136,
            Block::Command => 137,
            Block::Beacon => 138,
            Block::CobbleWall => 139,
            Block::FlowerPot => 140,
            Block::Carrot => 141,
            Block::Potato => 142,
            Block::WoodButton => 143,
            Block::Anvil => 145,
            Block::TrappedChest => 146,
            Block::GoldPlate => 147,
            Block::IronPlate => 148,
            Block::RedstoneComparatorOff => 149,
            Block::RedstoneComparatorOn => 150,
            Block::DaylightDetectorOff => 151,
            Block::RedstoneBlock => 152,
            Block::QuartzOre => 153,
            Block::Hopper => 154,
            Block::QuartzBlock => 155,
            Block::QuartzStairs => 156,
            Block::ActivatorRail => 157,
            Block::Dropper => 158,
            Block::StainedClay => 159,
            Block::StainedGlassPane => 160,
            Block::Leaves2 => 161,
            Block::Log2 => 162,
            Block::AcaciaStairs => 163,
            Block::DarkOakStairs => 164,
            Block::SlimeBlock => 165,
            Block::Barrier => 166,
            Block::IronTrapdoor => 167,
            Block::Prismarine => 168,
            Block::SeaLantern => 169,
            Block::HayBlock => 170,
            Block::Carpet => 171,
            Block::HardClay => 172,
            Block::CoalBlock => 173,
            Block::PackedIce => 174,
            Block::DoublePlant => 175,
            Block::StandingBanner => 176,
            Block::WallBanner => 177,
            Block::DaylightDetectorOn => 178,
            Block::RedSandstone => 179,
            Block::RedSandstoneStairs => 180,
            Block::StoneSlab2 => 181,
            Block::SpruceFenceGate => 183,
            Block::BirchFenceGate => 184,
            Block::JungleFenceGate => 185,
            Block::DarkOakFenceGate => 186,
            Block::AcaciaFenceGate => 187,
            Block::SpruceFence => 188,
            Block::BirchFence => 189,
            Block::JungleFence => 190,
            Block::DarkOakFence => 191,
            Block::AcaciaFence => 192,
            Block::SpruceDoor => 193,
            Block::BirchDoor => 194,
            Block::JungleDoor => 195,
            Block::AcaciaDoor => 196,
            Block::DarkOakDoor => 197,
            Block::EndRod => 198,
            Block::ChorusPlant => 199,
            Block::ChorusFlower => 200,
            Block::PurpurBlock => 201,
            Block::PurpurPillar => 202,
            Block::PurpurStairs => 203,
            Block::PurpurSlabBottom => 204,
            Block::PurpurSlabUp => 205,
            Block::EndBricks => 206,
            Block::BeetrootBlock => 207,
            Block::GrassPath => 208,
            Block::EndGateway => 209,
            Block::CommandRepeating => 210,
            Block::CommandChain => 211,
            Block::FrostedIce => 212,
            Block::Magma => 213,
            Block::NetherWartBlock => 214,
            Block::RedNetherBrick => 215,
            Block::BoneBlock => 216,
            Block::StructureVoid => 217,
            Block::Observer => 218,
            Block::WhiteShulkerBox => 219,
            Block::OrangeShulkerBox => 220,
            Block::MagentaShulkerBox => 221,
            Block::LightBlueShulkerBox => 222,
            Block::YellowShulkerBox => 223,
            Block::LimeShulkerBox => 224,
            Block::PinkShulkerBox => 225,
            Block::GrayShulkerBox => 226,
            Block::SilverShulkerBox => 227,
            Block::CyanShulkerBox => 228,
            Block::PurpleShulkerBox => 229,
            Block::BlueShulkerBox => 230,
            Block::BrownShulkerBox => 231,
            Block::GreenShulkerBox => 232,
            Block::RedShulkerBox => 233,
            Block::BlackShulkerBox => 234,
            Block::WhiteGlazedTerracotta => 235,
            Block::OrangeGlazedTerracotta => 236,
            Block::MagentaGlazedTerracotta => 237,
            Block::LightBlueGlazedTerracotta => 238,
            Block::YellowGlazedTerracotta => 239,
            Block::LimeGlazedTerracotta => 240,
            Block::PinkGlazedTerracotta => 241,
            Block::GrayGlazedTerracotta => 242,
            Block::SilverGlazedTerracotta => 243,
            Block::CyanGlazedTerracotta => 244,
            Block::PurpleGlazedTerracotta => 245,
            Block::BlueGlazedTerracotta => 246,
            Block::BrownGlazedTerracotta => 247,
            Block::GreenGlazedTerracotta => 248,
            Block::RedGlazedTerracotta => 249,
            Block::BlackGlazedTerracotta => 250,
            Block::Concrete => 251,
            Block::ConcretePowder => 252,
            Block::StructureBlock => 255,
        }
    }

    /// The voxel type with the given registry code, if the registry has one.
    pub open spec fn from_code_spec(c: u16) -> Option<Block> {
        if c == 0 {
            Some(Block::Air)
        } else if c == 1 {
            Some(Block::Stone)
        } else if c == 2 {
            Some(Block::Grass)
        } else if c == 3 {
            Some(Block::Dirt)
        } else if c == 4 {
            Some(Block::Cobblestone)
        } else if c == 5 {
            Some(Block::Wood)
        } else if c == 6 {
            Some(Block::Sapling)
        } else if c == 7 {
            Some(Block::Bedrock)
        } else if c == 8 {
            Some(Block::WaterSolid)
        } else if c == 9 {
            Some(Block::Water)
        } else if c == 10 {
            Some(Block::LavaSolid)
        } else if c == 11 {
            Some(Block::Lava)
        } else if c == 12 {
            Some(Block::Sand)
        } else if c == 13 {
            Some(Block::Gravel)
        } else if c == 14 {
            Some(Block::GoldOre)
        } else if c == 15 {
            Some(Block::IronOre)
        } else if c == 16 {
            Some(Block::CoalOre)
        } else if c == 17 {
            Some(Block::Log)
        } else if c == 18 {
            Some(Block::Leaves)
        } else if c == 19 {
            Some(Block::Sponge)
        } else if c == 20 {
            Some(Block::Glass)
        } else if c == 21 {
            Some(Block::LapisOre)
        } else if c == 22 {
            Some(Block::LapisBlock)
        } else if c == 23 {
            Some(Block::Dispenser)
        } else if c == 24 {
            Some(Block::Sandstone)
        } else if c == 25 {
            Some(Block::NoteBlock)
        } else if c == 26 {
            Some(Block::BedBlock)
        } else if c == 27 {
            Some(Block::PoweredRail)
        } else if c == 28 {
            Some(Block::DetectorRail)
        } else if c == 29 {
            Some(Block::PistonStickyBase)
        } else if c == 30 {
            Some(Block::Web)
        } else if c == 31 {
            Some(Block::LongGrassBottom)
        } else if c == 32 {
            Some(Block::LongGrassUp)
        } else if c == 33 {
            Some(Block::PistonBase)
        } else if c == 34 {
            Some(Block::PistonExtension)
        } else if c == 35 {
            Some(Block::Wool)
        } else if c == 36 {
            Some(Block::PistonMovingPiece)
        } else if c == 37 {
            Some(Block::YellowFlower)
        } else if c == 38 {
            Some(Block::RedRose)
        } else if c == 39 {
            Some(Block::BrownMushroom)
        } else if c == 40 {
            Some(Block::RedMushroom)
        } else if c == 41 {
            Some(Block::GoldBlock)
        } else if c == 42 {
            Some(Block::IronBlock)
        } else if c == 43 {
            Some(Block::StepDown)
        } else if c == 44 {
            Some(Block::StepUp)
        } else if c == 45 {
            Some(Block::Brick)
        } else if c == 46 {
            Some(Block::Tnt)
        } else if c == 47 {
            Some(Block::Bookshelf)
        } else if c == 48 {
            Some(Block::MossyCobblestone)
        } else if c == 49 {
            Some(Block::Obsidian)
        } else if c == 50 {
            Some(Block::Torch)
        } else if c == 51 {
            Some(Block::Fire)
        } else if c == 52 {
            Some(Block::MobSpawner)
        } else if c == 53 {
            Some(Block::WoodStairs)
        } else if c == 54 {
            Some(Block::Chest)
        } else if c == 55 {
            Some(Block::RedstoneWire)
        } else if c == 56 {
            Some(Block::DiamondOre)
        } else if c == 57 {
            Some(Block::DiamondBlock)
        } else if c == 58 {
            Some(Block::Workbench)
        } else if c == 59 {
            Some(Block::Crops)
        } else if c == 60 {
            Some(Block::Soil)
        } else if c == 61 {
            Some(Block::FurnaceOff)
        } else if c == 62 {
            Some(Block::FurnaceOn)
        } else if c == 63 {
            Some(Block::SignPost)
        } else if c == 64 {
            Some(Block::WoodenDoor)
        } else if c == 65 {
            Some(Block::Ladder)
        } else if c == 66 {
            Some(Block::Rails)
        } else if c == 67 {
            Some(Block::CobblestoneStairs)
        } else if c == 68 {
            Some(Block::WallSign)
        } else if c == 69 {
            Some(Block::Lever)
        } else if c == 70 {
            Some(Block::StonePlate)
        } else if c == 71 {
            Some(Block::IronDoorBlock)
        } else if c == 72 {
            Some(Block::WoodPlate)
        } else if c == 73 {
            Some(Block::RedstoneOreOff)
        } else if c == 74 {
            Some(Block::RedstoneOreOn)
        } else if c == 75 {
            Some(Block::RedstoneTorchOff)
        } else if c == 76 {
            Some(Block::RedstoneTorchOn)
        } else if c == 77 {
            Some(Block::StoneButton)
        } else if c == 78 {
            Some(Block::Snow)
        } else if c == 79 {
            Some(Block::Ice)
        } else if c == 80 {
            Some(Block::SnowBlock)
        } else if c == 81 {
            Some(Block::Cactus)
        } else if c == 82 {
            Some(Block::Clay)
        } else if c == 83 {
            Some(Block::SugarCaneBlock)
        } else if c == 84 {
            Some(Block::Jukebox)
        } else if c == 85 {
            Some(Block::Fence)
        } else if c == 86 {
            Some(Block::Pumpkin)
        } else if c == 87 {
            Some(Block::Netherrack)
        } else if c == 88 {
            Some(Block::SoulSand)
        } else if c == 89 {
            Some(Block::Glowstone)
        } else if c == 90 {
            Some(Block::Portal)
        } else if c == 91 {
            Some(Block::JackOLantern)
        } else if c == 92 {
            Some(Block::CakeBlock)
        } else if c == 93 {
            Some(Block::DiodeBlockOff)
        } else if c == 94 {
            Some(Block::DiodeBlockOn)
        } else if c == 95 {
            Some(Block::StainedGlass)
        } else if c == 96 {
            Some(Block::TrapDoor)
        } else if c == 97 {
            Some(Block::MonsterEggs)
        } else if c == 98 {
            Some(Block::SmoothBrick)
        } else if c == 99 {
            Some(Block::HugeMushroom1)
        } else if c == 100 {
            Some(Block::HugeMushroom2)
        } else if c == 101 {
            Some(Block::IronFence)
        } else if c == 102 {
            Some(Block::ThinGlass)
        } else if c == 103 {
            Some(Block::MelonBlock)
        } else if c == 104 {
            Some(Block::PumpkinStem)
        } else if c == 105 {
            Some(Block::MelonStem)
        } else if c == 106 {
            Some(Block::Vine)
        } else if c == 107 {
            Some(Block::FenceGate)
        } else if c == 108 {
            Some(Block::BrickStairs)
        } else if c == 109 {
            Some(Block::SmoothStairs)
        } else if c == 110 {
            Some(Block::Mycel)
        } else if c == 111 {
            Some(Block::WaterLily)
        } else if c == 112 {
            Some(Block::NetherBrick)
        } else if c == 113 {
            Some(Block::NetherFence)
        } else if c == 114 {
            Some(Block::NetherBrickStairs)
        } else if c == 115 {
            Some(Block::NetherWarts)
        } else if c == 116 {
            Some(Block::EnchantmentTable)
        } else if c == 117 {
            Some(Block::BrewingStand)
        } else if c == 118 {
            Some(Block::Cauldron)
        } else if c == 119 {
            Some(Block::EnderPortal)
        } else if c == 120 {
            Some(Block::EnderPortalFrame)
        } else if c == 121 {
            Some(Block::EnderStone)
        } else if c == 122 {
            Some(Block::DragonEgg)
        } else if c == 123 {
            Some(Block::RedstoneLampOff)
        } else if c == 124 {
            Some(Block::RedstoneLampOn)
        } else if c == 125 {
            Some(Block::WoodStepDown)
        } else if c == 126 {
            Some(Block::WoodStepUp)
        } else if c == 127 {
            Some(Block::Cocoa)
        } else if c == 128 {
            Some(Block::SandstoneStairs)
        } else if c == 129 {
            Some(Block::EmeraldOre)
        } else if c == 130 {
            Some(Block::EnderChest)
        } else if c == 131 {
            Some(Block::TripwireHook)
        } else if c == 132 {
            Some(Block::Tripwire)
        } else if c == 133 {
            Some(Block::EmeraldBlock)
        } else if c == 134 {
            Some(Block::SpruceWoodStairs)
        } else if c == 135 {
            Some(Block::BirchWoodStairs)
        } else if c == 136 {
            Some(Block::JungleWoodStairs)
        } else if c == 137 {
            Some(Block::Command)
        } else if c == 138 {
            Some(Block::Beacon)
        } else if c == 139 {
            Some(Block::CobbleWall)
        } else if c == 140 {
            Some(Block::FlowerPot)
        } else if c == 141 {
            Some(Block::Carrot)
        } else if c == 142 {
            Some(Block::Potato)
        } else if c == 143 {
            Some(Block::WoodButton)
        } else if c == 145 {
            Some(Block::Anvil)
        } else if c == 146 {
            Some(Block::TrappedChest)
        } else if c == 147 {
            Some(Block::GoldPlate)
        } else if c == 148 {
            Some(Block::IronPlate)
        } else if c == 149 {
            Some(Block::RedstoneComparatorOff)
        } else if c == 150 {
            Some(Block::RedstoneComparatorOn)
        } else if c == 151 {
            Some(Block::DaylightDetectorOff)
        } else if c == 152 {
            Some(Block::RedstoneBlock)
        } else if c == 153 {
            Some(Block::QuartzOre)
        } else if c == 154 {
            Some(Block::Hopper)
        } else if c == 155 {
            Some(Block::QuartzBlock)
        } else if c == 156 {
            Some(Block::QuartzStairs)
        } else if c == 157 {
            Some(Block::ActivatorRail)
        } else if c == 158 {
            Some(Block::Dropper)
        } else if c == 159 {
            Some(Block::StainedClay)
        } else if c == 160 {
            Some(Block::StainedGlassPane)
        } else if c == 161 {
            Some(Block::Leaves2)
        } else if c == 162 {
            Some(Block::Log2)
        } else if c == 163 {
            Some(Block::AcaciaStairs)
        } else if c == 164 {
            Some(Block::DarkOakStairs)
        } else if c == 165 {
            Some(Block::SlimeBlock)
        } else if c == 166 {
            Some(Block::Barrier)
        } else if c == 167 {
            Some(Block::IronTrapdoor)
        } else if c == 168 {
            Some(Block::Prismarine)
        } else if c == 169 {
            Some(Block::SeaLantern)
        } else if c == 170 {
            Some(Block::HayBlock)
        } else if c == 171 {
            Some(Block::Carpet)
        } else if c == 172 {
            Some(Block::HardClay)
        } else if c == 173 {
            Some(Block::CoalBlock)
        } else if c == 174 {
            Some(Block::PackedIce)
        } else if c == 175 {
            Some(Block::DoublePlant)
        } else if c == 176 {
            Some(Block::StandingBanner)
        } else if c == 177 {
            Some(Block::WallBanner)
        } else if c == 178 {
            Some(Block::DaylightDetectorOn)
        } else if c == 179 {
            Some(Block::RedSandstone)
        } else if c == 180 {
            Some(Block::RedSandstoneStairs)
        } else if c == 181 {
            Some(Block::StoneSlab2)
        } else if c == 183 {
            Some(Block::SpruceFenceGate)
        } else if c == 184 {
            Some(Block::BirchFenceGate)
        } else if c == 185 {
            Some(Block::JungleFenceGate)
        } else if c == 186 {
            Some(Block::DarkOakFenceGate)
        } else if c == 187 {
            Some(Block::AcaciaFenceGate)
        } else if c == 188 {
            Some(Block::SpruceFence)
        } else if c == 189 {
            Some(Block::BirchFence)
        } else if c == 190 {
            Some(Block::JungleFence)
        } else if c == 191 {
            Some(Block::DarkOakFence)
        } else if c == 192 {
            Some(Block::AcaciaFence)
        } else if c == 193 {
            Some(Block::SpruceDoor)
        } else if c == 194 {
            Some(Block::BirchDoor)
        } else if c == 195 {
            Some(Block::JungleDoor)
        } else if c == 196 {
            Some(Block::AcaciaDoor)
        } else if c == 197 {
            Some(Block::DarkOakDoor)
        } else if c == 198 {
            Some(Block::EndRod)
        } else if c == 199 {
            Some(Block::ChorusPlant)
        } else if c == 200 {
            Some(Block::ChorusFlower)
        } else if c == 201 {
            Some(Block::PurpurBlock)
        } else if c == 202 {
            Some(Block::PurpurPillar)
        } else if c == 203 {
            Some(Block::PurpurStairs)
        } else if c == 204 {
            Some(Block::PurpurSlabBottom)
        } else if c == 205 {
            Some(Block::PurpurSlabUp)
        } else if c == 206 {
            Some(Block::EndBricks)
        } else if c == 207 {
            Some(Block::BeetrootBlock)
        } else if c == 208 {
            Some(Block::GrassPath)
        } else if c == 209 {
            Some(Block::EndGateway)
        } else if c == 210 {
            Some(Block::CommandRepeating)
        } else if c == 211 {
            Some(Block::CommandChain)
        } else if c == 212 {
            Some(Block::FrostedIce)
        } else if c == 213 {
            Some(Block::Magma)
        } else if c == 214 {
            Some(Block::NetherWartBlock)
        } else if c == 215 {
            Some(Block::RedNetherBrick)
        } else if c == 216 {
            Some(Block::BoneBlock)
        } else if c == 217 {
            Some(Block::StructureVoid)
        } else if c == 218 {
            Some(Block::Observer)
        } else if c == 219 {
            Some(Block::WhiteShulkerBox)
        } else if c == 220 {
            Some(Block::OrangeShulkerBox)
        } else if c == 221 {
            Some(Block::MagentaShulkerBox)
        } else if c == 222 {
            Some(Block::LightBlueShulkerBox)
        } else if c == 223 {
            Some(Block::YellowShulkerBox)
        } else if c == 224 {
            Some(Block::LimeShulkerBox)
        } else if c == 225 {
            Some(Block::PinkShulkerBox)
        } else if c == 226 {
            Some(Block::GrayShulkerBox)
        } else if c == 227 {
            Some(Block::SilverShulkerBox)
        } else if c == 228 {
            Some(Block::CyanShulkerBox)
        } else if c == 229 {
            Some(Block::PurpleShulkerBox)
        } else if c == 230 {
            Some(Block::BlueShulkerBox)
        } else if c == 231 {
            Some(Block::BrownShulkerBox)
        } else if c == 232 {
            Some(Block::GreenShulkerBox)
        } else if c == 233 {
            Some(Block::RedShulkerBox)
        } else if c == 234 {
            Some(Block::BlackShulkerBox)
        } else if c == 235 {
            Some(Block::WhiteGlazedTerracotta)
        } else if c == 236 {
            Some(Block::OrangeGlazedTerracotta)
        } else if c == 237 {
            Some(Block::MagentaGlazedTerracotta)
        } else if c == 238 {
            Some(Block::LightBlueGlazedTerracotta)
        } else if c == 239 {
            Some(Block::YellowGlazedTerracotta)
        } else if c == 240 {
            Some(Block::LimeGlazedTerracotta)
        } else if c == 241 {
            Some(Block::PinkGlazedTerracotta)
        } else if c == 242 {
            Some(Block::GrayGlazedTerracotta)
        } else if c == 243 {
            Some(Block::SilverGlazedTerracotta)
        } else if c == 244 {
            Some(Block::CyanGlazedTerracotta)
        } else if c == 245 {
            Some(Block::PurpleGlazedTerracotta)
        } else if c == 246 {
            Some(Block::BlueGlazedTerracotta)
        } else if c == 247 {
            Some(Block::BrownGlazedTerracotta)
        } else if c == 248 {
            Some(Block::GreenGlazedTerracotta)
        } else if c == 249 {
            Some(Block::RedGlazedTerracotta)
        } else if c == 250 {
            Some(Block::BlackGlazedTerracotta)
        } else if c == 251 {
            Some(Block::Concrete)
        } else if c == 252 {
            Some(Block::ConcretePowder)
        } else if c == 255 {
            Some(Block::StructureBlock)
        } else {
            None
        }
    }

    /// Decodes a registry code back to its voxel type, if the registry has
    /// one for it.
    pub fn from_code(c: u16) -> (r: Option<Block>)
        ensures
            r == Self::from_code_spec(c),
    {
        if c == 0 {
            Some(Block::Air)
        } else if c == 1 {
            Some(Block::Stone)
        } else if c == 2 {
            Some(Block::Grass)
        } else if c == 3 {
            Some(Block::Dirt)
        } else if c == 4 {
            Some(Block::Cobblestone)
        } else if c == 5 {
            Some(Block::Wood)
        } else if c == 6 {
            Some(Block::Sapling)
        } else if c == 7 {
            Some(Block::Bedrock)
        } else if c == 8 {
            Some(Block::WaterSolid)
        } else if c == 9 {
            Some(Block::Water)
        } else if c == 10 {
            Some(Block::LavaSolid)
        } else if c == 11 {
            Some(Block::Lava)
        } else if c == 12 {
            Some(Block::Sand)
        } else if c == 13 {
            Some(Block::Gravel)
        } else if c == 14 {
            Some(Block::GoldOre)
        } else if c == 15 {
            Some(Block::IronOre)
        } else if c == 16 {
            Some(Block::CoalOre)
        } else if c == 17 {
            Some(Block::Log)
        } else if c == 18 {
            Some(Block::Leaves)
        } else if c == 19 {
            Some(Block::Sponge)
        } else if c == 20 {
            Some(Block::Glass)
        } else if c == 21 {
            Some(Block::LapisOre)
        } else if c == 22 {
            Some(Block::LapisBlock)
        } else if c == 23 {
            Some(Block::Dispenser)
        } else if c == 24 {
            Some(Block::Sandstone)
        } else if c == 25 {
            Some(Block::NoteBlock)
        } else if c == 26 {
            Some(Block::BedBlock)
        } else if c == 27 {
            Some(Block::PoweredRail)
        } else if c == 28 {
            Some(Block::DetectorRail)
        } else if c == 29 {
            Some(Block::PistonStickyBase)
        } else if c == 30 {
            Some(Block::Web)
        } else if c == 31 {
            Some(Block::LongGrassBottom)
        } else if c == 32 {
            Some(Block::LongGrassUp)
        } else if c == 33 {
            Some(Block::PistonBase)
        } else if c == 34 {
            Some(Block::PistonExtension)
        } else if c == 35 {
            Some(Block::Wool)
        } else if c == 36 {
            Some(Block::PistonMovingPiece)
        } else if c == 37 {
            Some(Block::YellowFlower)
        } else if c == 38 {
            Some(Block::RedRose)
        } else if c == 39 {
            Some(Block::BrownMushroom)
        } else if c == 40 {
            Some(Block::RedMushroom)
        } else if c == 41 {
            Some(Block::GoldBlock)
        } else if c == 42 {
            Some(Block::IronBlock)
        } else if c == 43 {
            Some(Block::StepDown)
        } else if c == 44 {
            Some(Block::StepUp)
        } else if c == 45 {
            Some(Block::Brick)
        } else if c == 46 {
            Some(Block::Tnt)
        } else if c == 47 {
            Some(Block::Bookshelf)
        } else if c == 48 {
            Some(Block::MossyCobblestone)
        } else if c == 49 {
            Some(Block::Obsidian)
        } else if c == 50 {
            Some(Block::Torch)
        } else if c == 51 {
            Some(Block::Fire)
        } else if c == 52 {
            Some(Block::MobSpawner)
        } else if c == 53 {
            Some(Block::WoodStairs)
        } else if c == 54 {
            Some(Block::Chest)
        } else if c == 55 {
            Some(Block::RedstoneWire)
        } else if c == 56 {
            Some(Block::DiamondOre)
        } else if c == 57 {
            Some(Block::DiamondBlock)
        } else if c == 58 {
            Some(Block::Workbench)
        } else if c == 59 {
            Some(Block::Crops)
        } else if c == 60 {
            Some(Block::Soil)
        } else if c == 61 {
            Some(Block::FurnaceOff)
        } else if c == 62 {
            Some(Block::FurnaceOn)
        } else if c == 63 {
            Some(Block::SignPost)
        } else if c == 64 {
            Some(Block::WoodenDoor)
        } else if c == 65 {
            Some(Block::Ladder)
        } else if c == 66 {
            Some(Block::Rails)
        } else if c == 67 {
            Some(Block::CobblestoneStairs)
        } else if c == 68 {
            Some(Block::WallSign)
        } else if c == 69 {
            Some(Block::Lever)
        } else if c == 70 {
            Some(Block::StonePlate)
        } else if c == 71 {
            Some(Block::IronDoorBlock)
        } else if c == 72 {
            Some(Block::WoodPlate)
        } else if c == 73 {
            Some(Block::RedstoneOreOff)
        } else if c == 74 {
            Some(Block::RedstoneOreOn)
        } else if c == 75 {
            Some(Block::RedstoneTorchOff)
        } else if c == 76 {
            Some(Block::RedstoneTorchOn)
        } else if c == 77 {
            Some(Block::StoneButton)
        } else if c == 78 {
            Some(Block::Snow)
        } else if c == 79 {
            Some(Block::Ice)
        } else if c == 80 {
            Some(Block::SnowBlock)
        } else if c == 81 {
            Some(Block::Cactus)
        } else if c == 82 {
            Some(Block::Clay)
        } else if c == 83 {
            Some(Block::SugarCaneBlock)
        } else if c == 84 {
            Some(Block::Jukebox)
        } else if c == 85 {
            Some(Block::Fence)
        } else if c == 86 {
            Some(Block::Pumpkin)
        } else if c == 87 {
            Some(Block::Netherrack)
        } else if c == 88 {
            Some(Block::SoulSand)
        } else if c == 89 {
            Some(Block::Glowstone)
        } else if c == 90 {
            Some(Block::Portal)
        } else if c == 91 {
            Some(Block::JackOLantern)
        } else if c == 92 {
            Some(Block::CakeBlock)
        } else if c == 93 {
            Some(Block::DiodeBlockOff)
        } else if c == 94 {
            Some(Block::DiodeBlockOn)
        } else if c == 95 {
            Some(Block::StainedGlass)
        } else if c == 96 {
            Some(Block::TrapDoor)
        } else if c == 97 {
            Some(Block::MonsterEggs)
        } else if c == 98 {
            Some(Block::SmoothBrick)
        } else if c == 99 {
            Some(Block::HugeMushroom1)
        } else if c == 100 {
            Some(Block::HugeMushroom2)
        } else if c == 101 {
            Some(Block::IronFence)
        } else if c == 102 {
            Some(Block::ThinGlass)
        } else if c == 103 {
            Some(Block::MelonBlock)
        } else if c == 104 {
            Some(Block::PumpkinStem)
        } else if c == 105 {
            Some(Block::MelonStem)
        } else if c == 106 {
            Some(Block::Vine)
        } else if c == 107 {
            Some(Block::FenceGate)
        } else if c == 108 {
            Some(Block::BrickStairs)
        } else if c == 109 {
            Some(Block::SmoothStairs)
        } else if c == 110 {
            Some(Block::Mycel)
        } else if c == 111 {
            Some(Block::WaterLily)
        } else if c == 112 {
            Some(Block::NetherBrick)
        } else if c == 113 {
            Some(Block::NetherFence)
        } else if c == 114 {
            Some(Block::NetherBrickStairs)
        } else if c == 115 {
            Some(Block::NetherWarts)
        } else if c == 116 {
            Some(Block::EnchantmentTable)
        } else if c == 117 {
            Some(Block::BrewingStand)
        } else if c == 118 {
            Some(Block::Cauldron)
        } else if c == 119 {
            Some(Block::EnderPortal)
        } else if c == 120 {
            Some(Block::EnderPortalFrame)
        } else if c == 121 {
            Some(Block::EnderStone)
        } else if c == 122 {
            Some(Block::DragonEgg)
        } else if c == 123 {
            Some(Block::RedstoneLampOff)
        } else if c == 124 {
            Some(Block::RedstoneLampOn)
        } else if c == 125 {
            Some(Block::WoodStepDown)
        } else if c == 126 {
            Some(Block::WoodStepUp)
        } else if c == 127 {
            Some(Block::Cocoa)
        } else if c == 128 {
            Some(Block::SandstoneStairs)
        } else if c == 129 {
            Some(Block::EmeraldOre)
        } else if c == 130 {
            Some(Block::EnderChest)
        } else if c == 131 {
            Some(Block::TripwireHook)
        } else if c == 132 {
            Some(Block::Tripwire)
        } else if c == 133 {
            Some(Block::EmeraldBlock)
        } else if c == 134 {
            Some(Block::SpruceWoodStairs)
        } else if c == 135 {
            Some(Block::BirchWoodStairs)
        } else if c == 136 {
            Some(Block::JungleWoodStairs)
        } else if c == 137 {
            Some(Block::Command)
        } else if c == 138 {
            Some(Block::Beacon)
        } else if c == 139 {
            Some(Block::CobbleWall)
        } else if c == 140 {
            Some(Block::FlowerPot)
        } else if c == 141 {
            Some(Block::Carrot)
        } else if c == 142 {
            Some(Block::Potato)
        } else if c == 143 {
            Some(Block::WoodButton)
        } else if c == 145 {
            Some(Block::Anvil)
        } else if c == 146 {
            Some(Block::TrappedChest)
        } else if c == 147 {
            Some(Block::GoldPlate)
        } else if c == 148 {
            Some(Block::IronPlate)
        } else if c == 149 {
            Some(Block::RedstoneComparatorOff)
        } else if c == 150 {
            Some(Block::RedstoneComparatorOn)
        } else if c == 151 {
            Some(Block::DaylightDetectorOff)
        } else if c == 152 {
            Some(Block::RedstoneBlock)
        } else if c == 153 {
            Some(Block::QuartzOre)
        } else if c == 154 {
            Some(Block::Hopper)
        } else if c == 155 {
            Some(Block::QuartzBlock)
        } else if c == 156 {
            Some(Block::QuartzStairs)
        } else if c == 157 {
            Some(Block::ActivatorRail)
        } else if c == 158 {
            Some(Block::Dropper)
        } else if c == 159 {
            Some(Block::StainedClay)
        } else if c == 160 {
            Some(Block::StainedGlassPane)
        } else if c == 161 {
            Some(Block::Leaves2)
        } else if c == 162 {
            Some(Block::Log2)
        } else if c == 163 {
            Some(Block::AcaciaStairs)
        } else if c == 164 {
            Some(Block::DarkOakStairs)
        } else if c == 165 {
            Some(Block::SlimeBlock)
        } else if c == 166 {
            Some(Block::Barrier)
        } else if c == 167 {
            Some(Block::IronTrapdoor)
        } else if c == 168 {
            Some(Block::Prismarine)
        } else if c == 169 {
            Some(Block::SeaLantern)
        } else if c == 170 {
            Some(Block::HayBlock)
        } else if c == 171 {
            Some(Block::Carpet)
        } else if c == 172 {
            Some(Block::HardClay)
        } else if c == 173 {
            Some(Block::CoalBlock)
        } else if c == 174 {
            Some(Block::PackedIce)
        } else if c == 175 {
            Some(Block::DoublePlant)
        } else if c == 176 {
            Some(Block::StandingBanner)
        } else if c == 177 {
            Some(Block::WallBanner)
        } else if c == 178 {
            Some(Block::DaylightDetectorOn)
        } else if c == 179 {
            Some(Block::RedSandstone)
        } else if c == 180 {
            Some(Block::RedSandstoneStairs)
        } else if c == 181 {
            Some(Block::StoneSlab2)
        } else if c == 183 {
            Some(Block::SpruceFenceGate)
        } else if c == 184 {
            Some(Block::BirchFenceGate)
        } else if c == 185 {
            Some(Block::JungleFenceGate)
        } else if c == 186 {
            Some(Block::DarkOakFenceGate)
        } else if c == 187 {
            Some(Block::AcaciaFenceGate)
        } else if c == 188 {
            Some(Block::SpruceFence)
        } else if c == 189 {
            Some(Block::BirchFence)
        } else if c == 190 {
            Some(Block::JungleFence)
        } else if c == 191 {
            Some(Block::DarkOakFence)
        } else if c == 192 {
            Some(Block::AcaciaFence)
        } else if c == 193 {
            Some(Block::SpruceDoor)
        } else if c == 194 {
            Some(Block::BirchDoor)
        } else if c == 195 {
            Some(Block::JungleDoor)
        } else if c == 196 {
            Some(Block::AcaciaDoor)
        } else if c == 197 {
            Some(Block::DarkOakDoor)
        } else if c == 198 {
            Some(Block::EndRod)
        } else if c == 199 {
            Some(Block::ChorusPlant)
        } else if c == 200 {
            Some(Block::ChorusFlower)
        } else if c == 201 {
            Some(Block::PurpurBlock)
        } else if c == 202 {
            Some(Block::PurpurPillar)
        } else if c == 203 {
            Some(Block::PurpurStairs)
        } else if c == 204 {
            Some(Block::PurpurSlabBottom)
        } else if c == 205 {
            Some(Block::PurpurSlabUp)
        } else if c == 206 {
            Some(Block::EndBricks)
        } else if c == 207 {
            Some(Block::BeetrootBlock)
        } else if c == 208 {
            Some(Block::GrassPath)
        } else if c == 209 {
            Some(Block::EndGateway)
        } else if c == 210 {
            Some(Block::CommandRepeating)
        } else if c == 211 {
            Some(Block::CommandChain)
        } else if c == 212 {
            Some(Block::FrostedIce)
        } else if c == 213 {
            Some(Block::Magma)
        } else if c == 214 {
            Some(Block::NetherWartBlock)
        } else if c == 215 {
            Some(Block::RedNetherBrick)
        } else if c == 216 {
            Some(Block::BoneBlock)
        } else if c == 217 {
            Some(Block::StructureVoid)
        } else if c == 218 {
            Some(Block::Observer)
        } else if c == 219 {
            Some(Block::WhiteShulkerBox)
        } else if c == 220 {
            Some(Block::OrangeShulkerBox)
        } else if c == 221 {
            Some(Block::MagentaShulkerBox)
        } else if c == 222 {
            Some(Block::LightBlueShulkerBox)
        } else if c == 223 {
            Some(Block::YellowShulkerBox)
        } else if c == 224 {
            Some(Block::LimeShulkerBox)
        } else if c == 225 {
            Some(Block::PinkShulkerBox)
        } else if c == 226 {
            Some(Block::GrayShulkerBox)
        } else if c == 227 {
            Some(Block::SilverShulkerBox)
        } else if c == 228 {
            Some(Block::CyanShulkerBox)
        } else if c == 229 {
            Some(Block::PurpleShulkerBox)
        } else if c == 230 {
            Some(Block::BlueShulkerBox)
        } else if c == 231 {
            Some(Block::BrownShulkerBox)
        } else if c == 232 {
            Some(Block::GreenShulkerBox)
        } else if c == 233 {
            Some(Block::RedShulkerBox)
        } else if c == 234 {
            Some(Block::BlackShulkerBox)
        } else if c == 235 {
            Some(Block::WhiteGlazedTerracotta)
        } else if c == 236 {
            Some(Block::OrangeGlazedTerracotta)
        } else if c == 237 {
            Some(Block::MagentaGlazedTerracotta)
        } else if c == 238 {
            Some(Block::LightBlueGlazedTerracotta)
        } else if c == 239 {
            Some(Block::YellowGlazedTerracotta)
        } else if c == 240 {
            Some(Block::LimeGlazedTerracotta)
        } else if c == 241 {
            Some(Block::PinkGlazedTerracotta)
        } else if c == 242 {
            Some(Block::GrayGlazedTerracotta)
        } else if c == 243 {
            Some(Block::SilverGlazedTerracotta)
        } else if c == 244 {
            Some(Block::CyanGlazedTerracotta)
        } else if c == 245 {
            Some(Block::PurpleGlazedTerracotta)
        } else if c == 246 {
            Some(Block::BlueGlazedTerracotta)
        } else if c == 247 {
            Some(Block::BrownGlazedTerracotta)
        } else if c == 248 {
            Some(Block::GreenGlazedTerracotta)
        } else if c == 249 {
            Some(Block::RedGlazedTerracotta)
        } else if c == 250 {
            Some(Block::BlackGlazedTerracotta)
        } else if c == 251 {
            Some(Block::Concrete)
        } else if c == 252 {
            Some(Block::ConcretePowder)
        } else if c == 255 {
            Some(Block::StructureBlock)
        } else {
            None
        }
    }

    /// Decoding a voxel type's own code gives that voxel type back: the
    /// registry codes form a bijection with the variants.
    pub proof fn lemma_code_round_trip(b: Block)
        ensures
            Self::from_code_spec(b.code_spec()) == Some(b),
    {
        match b {
            Block::Air => {
                assert(Self::from_code_spec(0) == Some(Block::Air));
            },
            Block::Stone => {
                assert(Self::from_code_spec(1) == Some(Block::Stone));
            },
            Block::Grass => {
                assert(Self::from_code_spec(2) == Some(Block::Grass));
            },
            Block::Dirt => {
                assert(Self::from_code_spec(3) == Some(Block::Dirt));
            },
            Block::Cobblestone => {
                assert(Self::from_code_spec(4) == Some(Block::Cobblestone));
            },
            Block::Wood => {
                assert(Self::from_code_spec(5) == Some(Block::Wood));
            },
            Block::Sapling => {
                assert(Self::from_code_spec(6) == Some(Block::Sapling));
            },
            Block::Bedrock => {
                assert(Self::from_code_spec(7) == Some(Block::Bedrock));
            },
            Block::WaterSolid => {
                assert(Self::from_code_spec(8) == Some(Block::WaterSolid));
            },
            Block::Water => {
                assert(Self::from_code_spec(9) == Some(Block::Water));
            },
            Block::LavaSolid => {
                assert(Self::from_code_spec(10) == Some(Block::LavaSolid));
            },
            Block::Lava => {
                assert(Self::from_code_spec(11) == Some(Block::Lava));
            },
            Block::Sand => {
                assert(Self::from_code_spec(12) == Some(Block::Sand));
            },
            Block::Gravel => {
                assert(Self::from_code_spec(13) == Some(Block::Gravel));
            },
            Block::GoldOre => {
                assert(Self::from_code_spec(14) == Some(Block::GoldOre));
            },
            Block::IronOre => {
                assert(Self::from_code_spec(15) == Some(Block::IronOre));
            },
            Block::CoalOre => {
                assert(Self::from_code_spec(16) == Some(Block::CoalOre));
            },
            Block::Log => {
                assert(Self::from_code_spec(17) == Some(Block::Log));
            },
            Block::Leaves => {
                assert(Self::from_code_spec(18) == Some(Block::Leaves));
            },
            Block::Sponge => {
                assert(Self::from_code_spec(19) == Some(Block::Sponge));
            },
            Block::Glass => {
                assert(Self::from_code_spec(20) == Some(Block::Glass));
            },
            Block::LapisOre => {
                assert(Self::from_code_spec(21) == Some(Block::LapisOre));
            },
            Block::LapisBlock => {
                assert(Self::from_code_spec(22) == Some(Block::LapisBlock));
            },
            Block::Dispenser => {
                assert(Self::from_code_spec(23) == Some(Block::Dispenser));
            },
            Block::Sandstone => {
                assert(Self::from_code_spec(24) == Some(Block::Sandstone));
            },
            Block::NoteBlock => {
                assert(Self::from_code_spec(25) == Some(Block::NoteBlock));
            },
            Block::BedBlock => {
                assert(Self::from_code_spec(26) == Some(Block::BedBlock));
            },
            Block::PoweredRail => {
                assert(Self::from_code_spec(27) == Some(Block::PoweredRail));
            },
            Block::DetectorRail => {
                assert(Self::from_code_spec(28) == Some(Block::DetectorRail));
            },
            Block::PistonStickyBase => {
                assert(Self::from_code_spec(29) == Some(Block::PistonStickyBase));
            },
            Block::Web => {
                assert(Self::from_code_spec(30) == Some(Block::Web));
            },
            Block::LongGrassBottom => {
                assert(Self::from_code_spec(31) == Some(Block::LongGrassBottom));
            },
            Block::LongGrassUp => {
                assert(Self::from_code_spec(32) == Some(Block::LongGrassUp));
            },
            Block::PistonBase => {
                assert(Self::from_code_spec(33) == Some(Block::PistonBase));
            },
            Block::PistonExtension => {
                assert(Self::from_code_spec(34) == Some(Block::PistonExtension));
            },
            Block::Wool => {
                assert(Self::from_code_spec(35) == Some(Block::Wool));
            },
            Block::PistonMovingPiece => {
                assert(Self::from_code_spec(36) == Some(Block::PistonMovingPiece));
            },
            Block::YellowFlower => {
                assert(Self::from_code_spec(37) == Some(Block::YellowFlower));
            },
            Block::RedRose => {
                assert(Self::from_code_spec(38) == Some(Block::RedRose));
            },
            Block::BrownMushroom => {
                assert(Self::from_code_spec(39) == Some(Block::BrownMushroom));
            },
            Block::RedMushroom => {
                assert(Self::from_code_spec(40) == Some(Block::RedMushroom));
            },
            Block::GoldBlock => {
                assert(Self::from_code_spec(41) == Some(Block::GoldBlock));
            },
            Block::IronBlock => {
                assert(Self::from_code_spec(42) == Some(Block::IronBlock));
            },
            Block::StepDown => {
                assert(Self::from_code_spec(43) == Some(Block::StepDown));
            },
            Block::StepUp => {
                assert(Self::from_code_spec(44) == Some(Block::StepUp));
            },
            Block::Brick => {
                assert(Self::from_code_spec(45) == Some(Block::Brick));
            },
            Block::Tnt => {
                assert(Self::from_code_spec(46) == Some(Block::Tnt));
            },
            Block::Bookshelf => {
                assert(Self::from_code_spec(47) == Some(Block::Bookshelf));
            },
            Block::MossyCobblestone => {
                assert(Self::from_code_spec(48) == Some(Block::MossyCobblestone));
            },
            Block::Obsidian => {
                assert(Self::from_code_spec(49) == Some(Block::Obsidian));
            },
            Block::Torch => {
                assert(Self::from_code_spec(50) == Some(Block::Torch));
            },
            Block::Fire => {
                assert(Self::from_code_spec(51) == Some(Block::Fire));
            },
            Block::MobSpawner => {
                assert(Self::from_code_spec(52) == Some(Block::MobSpawner));
            },
            Block::WoodStairs => {
                assert(Self::from_code_spec(53) == Some(Block::WoodStairs));
            },
            Block::Chest => {
                assert(Self::from_code_spec(54) == Some(Block::Chest));
            },
            Block::RedstoneWire => {
                assert(Self::from_code_spec(55) == Some(Block::RedstoneWire));
            },
            Block::DiamondOre => {
                assert(Self::from_code_spec(56) == Some(Block::DiamondOre));
            },
            Block::DiamondBlock => {
                assert(Self::from_code_spec(57) == Some(Block::DiamondBlock));
            },
            Block::Workbench => {
                assert(Self::from_code_spec(58) == Some(Block::Workbench));
            },
            Block::Crops => {
                assert(Self::from_code_spec(59) == Some(Block::Crops));
            },
            Block::Soil => {
                assert(Self::from_code_spec(60) == Some(Block::Soil));
            },
            Block::FurnaceOff => {
                assert(Self::from_code_spec(61) == Some(Block::FurnaceOff));
            },
            Block::FurnaceOn => {
                assert(Self::from_code_spec(62) == Some(Block::FurnaceOn));
            },
            Block::SignPost => {
                assert(Self::from_code_spec(63) == Some(Block::SignPost));
            },
            Block::WoodenDoor => {
                assert(Self::from_code_spec(64) == Some(Block::WoodenDoor));
            },
            Block::Ladder => {
                assert(Self::from_code_spec(65) == Some(Block::Ladder));
            },
            Block::Rails => {
                assert(Self::from_code_spec(66) == Some(Block::Rails));
            },
            Block::CobblestoneStairs => {
                assert(Self::from_code_spec(67) == Some(Block::CobblestoneStairs));
            },
            Block::WallSign => {
                assert(Self::from_code_spec(68) == Some(Block::WallSign));
            },
            Block::Lever => {
                assert(Self::from_code_spec(69) == Some(Block::Lever));
            },
            Block::StonePlate => {
                assert(Self::from_code_spec(70) == Some(Block::StonePlate));
            },
            Block::IronDoorBlock => {
                assert(Self::from_code_spec(71) == Some(Block::IronDoorBlock));
            },
            Block::WoodPlate => {
                assert(Self::from_code_spec(72) == Some(Block::WoodPlate));
            },
            Block::RedstoneOreOff => {
                assert(Self::from_code_spec(73) == Some(Block::RedstoneOreOff));
            },
            Block::RedstoneOreOn => {
                assert(Self::from_code_spec(74) == Some(Block::RedstoneOreOn));
            },
            Block::RedstoneTorchOff => {
                assert(Self::from_code_spec(75) == Some(Block::RedstoneTorchOff));
            },
            Block::RedstoneTorchOn => {
                assert(Self::from_code_spec(76) == Some(Block::RedstoneTorchOn));
            },
            Block::StoneButton => {
                assert(Self::from_code_spec(77) == Some(Block::StoneButton));
            },
            Block::Snow => {
                assert(Self::from_code_spec(78) == Some(Block::Snow));
            },
            Block::Ice => {
                assert(Self::from_code_spec(79) == Some(Block::Ice));
            },
            Block::SnowBlock => {
                assert(Self::from_code_spec(80) == Some(Block::SnowBlock));
            },
            Block::Cactus => {
                assert(Self::from_code_spec(81) == Some(Block::Cactus));
            },
            Block::Clay => {
                assert(Self::from_code_spec(82) == Some(Block::Clay));
            },
            Block::SugarCaneBlock => {
                assert(Self::from_code_spec(83) == Some(Block::SugarCaneBlock));
            },
            Block::Jukebox => {
                assert(Self::from_code_spec(84) == Some(Block::Jukebox));
            },
            Block::Fence => {
                assert(Self::from_code_spec(85) == Some(Block::Fence));
            },
            Block::Pumpkin => {
                assert(Self::from_code_spec(86) == Some(Block::Pumpkin));
            },
            Block::Netherrack => {
                assert(Self::from_code_spec(87) == Some(Block::Netherrack));
            },
            Block::SoulSand => {
                assert(Self::from_code_spec(88) == Some(Block::SoulSand));
            },
            Block::Glowstone => {
                assert(Self::from_code_spec(89) == Some(Block::Glowstone));
            },
            Block::Portal => {
                assert(Self::from_code_spec(90) == Some(Block::Portal));
            },
            Block::JackOLantern => {
                assert(Self::from_code_spec(91) == Some(Block::JackOLantern));
            },
            Block::CakeBlock => {
                assert(Self::from_code_spec(92) == Some(Block::CakeBlock));
            },
            Block::DiodeBlockOff => {
                assert(Self::from_code_spec(93) == Some(Block::DiodeBlockOff));
            },
            Block::DiodeBlockOn => {
                assert(Self::from_code_spec(94) == Some(Block::DiodeBlockOn));
            },
            Block::StainedGlass => {
                assert(Self::from_code_spec(95) == Some(Block::StainedGlass));
            },
            Block::TrapDoor => {
                assert(Self::from_code_spec(96) == Some(Block::TrapDoor));
            },
            Block::MonsterEggs => {
                assert(Self::from_code_spec(97) == Some(Block::MonsterEggs));
            },
            Block::SmoothBrick => {
                assert(Self::from_code_spec(98) == Some(Block::SmoothBrick));
            },
            Block::HugeMushroom1 => {
                assert(Self::from_code_spec(99) == Some(Block::HugeMushroom1));
            },
            Block::HugeMushroom2 => {
                assert(Self::from_code_spec(100) == Some(Block::HugeMushroom2));
            },
            Block::IronFence => {
                assert(Self::from_code_spec(101) == Some(Block::IronFence));
            },
            Block::ThinGlass => {
                assert(Self::from_code_spec(102) == Some(Block::ThinGlass));
            },
            Block::MelonBlock => {
                assert(Self::from_code_spec(103) == Some(Block::MelonBlock));
            },
            Block::PumpkinStem => {
                assert(Self::from_code_spec(104) == Some(Block::PumpkinStem));
            },
            Block::MelonStem => {
                assert(Self::from_code_spec(105) == Some(Block::MelonStem));
            },
            Block::Vine => {
                assert(Self::from_code_spec(106) == Some(Block::Vine));
            },
            Block::FenceGate => {
                assert(Self::from_code_spec(107) == Some(Block::FenceGate));
            },
            Block::BrickStairs => {
                assert(Self::from_code_spec(108) == Some(Block::BrickStairs));
            },
            Block::SmoothStairs => {
                assert(Self::from_code_spec(109) == Some(Block::SmoothStairs));
            },
            Block::Mycel => {
                assert(Self::from_code_spec(110) == Some(Block::Mycel));
            },
            Block::WaterLily => {
                assert(Self::from_code_spec(111) == Some(Block::WaterLily));
            },
            Block::NetherBrick => {
                assert(Self::from_code_spec(112) == Some(Block::NetherBrick));
            },
            Block::NetherFence => {
                assert(Self::from_code_spec(113) == Some(Block::NetherFence));
            },
            Block::NetherBrickStairs => {
                assert(Self::from_code_spec(114) == Some(Block::NetherBrickStairs));
            },
            Block::NetherWarts => {
                assert(Self::from_code_spec(115) == Some(Block::NetherWarts));
            },
            Block::EnchantmentTable => {
                assert(Self::from_code_spec(116) == Some(Block::EnchantmentTable));
            },
            Block::BrewingStand => {
                assert(Self::from_code_spec(117) == Some(Block::BrewingStand));
            },
            Block::Cauldron => {
                assert(Self::from_code_spec(118) == Some(Block::Cauldron));
            },
            Block::EnderPortal => {
                assert(Self::from_code_spec(119) == Some(Block::EnderPortal));
            },
            Block::EnderPortalFrame => {
                assert(Self::from_code_spec(120) == Some(Block::EnderPortalFrame));
            },
            Block::EnderStone => {
                assert(Self::from_code_spec(121) == Some(Block::EnderStone));
            },
            Block::DragonEgg => {
                assert(Self::from_code_spec(122) == Some(Block::DragonEgg));
            },
            Block::RedstoneLampOff => {
                assert(Self::from_code_spec(123) == Some(Block::RedstoneLampOff));
            },
            Block::RedstoneLampOn => {
                assert(Self::from_code_spec(124) == Some(Block::RedstoneLampOn));
            },
            Block::WoodStepDown => {
                assert(Self::from_code_spec(125) == Some(Block::WoodStepDown));
            },
            Block::WoodStepUp => {
                assert(Self::from_code_spec(126) == Some(Block::WoodStepUp));
            },
            Block::Cocoa => {
                assert(Self::from_code_spec(127) == Some(Block::Cocoa));
            },
            Block::SandstoneStairs => {
                assert(Self::from_code_spec(128) == Some(Block::SandstoneStairs));
            },
            Block::EmeraldOre => {
                assert(Self::from_code_spec(129) == Some(Block::EmeraldOre));
            },
            Block::EnderChest => {
                assert(Self::from_code_spec(130) == Some(Block::EnderChest));
            },
            Block::TripwireHook => {
                assert(Self::from_code_spec(131) == Some(Block::TripwireHook));
            },
            Block::Tripwire => {
                assert(Self::from_code_spec(132) == Some(Block::Tripwire));
            },
            Block::EmeraldBlock => {
                assert(Self::from_code_spec(133) == Some(Block::EmeraldBlock));
            },
            Block::SpruceWoodStairs => {
                assert(Self::from_code_spec(134) == Some(Block::SpruceWoodStairs));
            },
            Block::BirchWoodStairs => {
                assert(Self::from_code_spec(135) == Some(Block::BirchWoodStairs));
            },
            Block::JungleWoodStairs => {
                assert(Self::from_code_spec(136) == Some(Block::JungleWoodStairs));
            },
            Block::Command => {
                assert(Self::from_code_spec(137) == Some(Block::Command));
            },
            Block::Beacon => {
                assert(Self::from_code_spec(138) == Some(Block::Beacon));
            },
            Block::CobbleWall => {
                assert(Self::from_code_spec(139) == Some(Block::CobbleWall));
            },
            Block::FlowerPot => {
                assert(Self::from_code_spec(140) == Some(Block::FlowerPot));
            },
            Block::Carrot => {
                assert(Self::from_code_spec(141) == Some(Block::Carrot));
            },
            Block::Potato => {
                assert(Self::from_code_spec(142) == Some(Block::Potato));
            },
            Block::WoodButton => {
                assert(Self::from_code_spec(143) == Some(Block::WoodButton));
            },
            Block::Anvil => {
                assert(Self::from_code_spec(145) == Some(Block::Anvil));
            },
            Block::TrappedChest => {
                assert(Self::from_code_spec(146) == Some(Block::TrappedChest));
            },
            Block::GoldPlate => {
                assert(Self::from_code_spec(147) == Some(Block::GoldPlate));
            },
            Block::IronPlate => {
                assert(Self::from_code_spec(148) == Some(Block::IronPlate));
            },
            Block::RedstoneComparatorOff => {
                assert(Self::from_code_spec(149) == Some(Block::RedstoneComparatorOff));
            },
            Block::RedstoneComparatorOn => {
                assert(Self::from_code_spec(150) == Some(Block::RedstoneComparatorOn));
            },
            Block::DaylightDetectorOff => {
                assert(Self::from_code_spec(151) == Some(Block::DaylightDetectorOff));
            },
            Block::RedstoneBlock => {
                assert(Self::from_code_spec(152) == Some(Block::RedstoneBlock));
            },
            Block::QuartzOre => {
                assert(Self::from_code_spec(153) == Some(Block::QuartzOre));
            },
            Block::Hopper => {
                assert(Self::from_code_spec(154) == Some(Block::Hopper));
            },
            Block::QuartzBlock => {
                assert(Self::from_code_spec(155) == Some(Block::QuartzBlock));
            },
            Block::QuartzStairs => {
                assert(Self::from_code_spec(156) == Some(Block::QuartzStairs));
            },
            Block::ActivatorRail => {
                assert(Self::from_code_spec(157) == Some(Block::ActivatorRail));
            },
            Block::Dropper => {
                assert(Self::from_code_spec(158) == Some(Block::Dropper));
            },
            Block::StainedClay => {
                assert(Self::from_code_spec(159) == Some(Block::StainedClay));
            },
            Block::StainedGlassPane => {
                assert(Self::from_code_spec(160) == Some(Block::StainedGlassPane));
            },
            Block::Leaves2 => {
                assert(Self::from_code_spec(161) == Some(Block::Leaves2));
            },
            Block::Log2 => {
                assert(Self::from_code_spec(162) == Some(Block::Log2));
            },
            Block::AcaciaStairs => {
                assert(Self::from_code_spec(163) == Some(Block::AcaciaStairs));
            },
            Block::DarkOakStairs => {
                assert(Self::from_code_spec(164) == Some(Block::DarkOakStairs));
            },
            Block::SlimeBlock => {
                assert(Self::from_code_spec(165) == Some(Block::SlimeBlock));
            },
            Block::Barrier => {
                assert(Self::from_code_spec(166) == Some(Block::Barrier));
            },
            Block::IronTrapdoor => {
                assert(Self::from_code_spec(167) == Some(Block::IronTrapdoor));
            },
            Block::Prismarine => {
                assert(Self::from_code_spec(168) == Some(Block::Prismarine));
            },
            Block::SeaLantern => {
                assert(Self::from_code_spec(169) == Some(Block::SeaLantern));
            },
            Block::HayBlock => {
                assert(Self::from_code_spec(170) == Some(Block::HayBlock));
            },
            Block::Carpet => {
                assert(Self::from_code_spec(171) == Some(Block::Carpet));
            },
            Block::HardClay => {
                assert(Self::from_code_spec(172) == Some(Block::HardClay));
            },
            Block::CoalBlock => {
                assert(Self::from_code_spec(173) == Some(Block::CoalBlock));
            },
            Block::PackedIce => {
                assert(Self::from_code_spec(174) == Some(Block::PackedIce));
            },
            Block::DoublePlant => {
                assert(Self::from_code_spec(175) == Some(Block::DoublePlant));
            },
            Block::StandingBanner => {
                assert(Self::from_code_spec(176) == Some(Block::StandingBanner));
            },
            Block::WallBanner => {
                assert(Self::from_code_spec(177) == Some(Block::WallBanner));
            },
            Block::DaylightDetectorOn => {
                assert(Self::from_code_spec(178) == Some(Block::DaylightDetectorOn));
            },
            Block::RedSandstone => {
                assert(Self::from_code_spec(179) == Some(Block::RedSandstone));
            },
            Block::RedSandstoneStairs => {
                assert(Self::from_code_spec(180) == Some(Block::RedSandstoneStairs));
            },
            Block::StoneSlab2 => {
                assert(Self::from_code_spec(181) == Some(Block::StoneSlab2));
            },
            Block::SpruceFenceGate => {
                assert(Self::from_code_spec(183) == Some(Block::SpruceFenceGate));
            },
            Block::BirchFenceGate => {
                assert(Self::from_code_spec(184) == Some(Block::BirchFenceGate));
            },
            Block::JungleFenceGate => {
                assert(Self::from_code_spec(185) == Some(Block::JungleFenceGate));
            },
            Block::DarkOakFenceGate => {
                assert(Self::from_code_spec(186) == Some(Block::DarkOakFenceGate));
            },
            Block::AcaciaFenceGate => {
                assert(Self::from_code_spec(187) == Some(Block::AcaciaFenceGate));
            },
            Block::SpruceFence => {
                assert(Self::from_code_spec(188) == Some(Block::SpruceFence));
            },
            Block::BirchFence => {
                assert(Self::from_code_spec(189) == Some(Block::BirchFence));
            },
            Block::JungleFence => {
                assert(Self::from_code_spec(190) == Some(Block::JungleFence));
            },
            Block::DarkOakFence => {
                assert(Self::from_code_spec(191) == Some(Block::DarkOakFence));
            },
            Block::AcaciaFence => {
                assert(Self::from_code_spec(192) == Some(Block::AcaciaFence));
            },
            Block::SpruceDoor => {
                assert(Self::from_code_spec(193) == Some(Block::SpruceDoor));
            },
            Block::BirchDoor => {
                assert(Self::from_code_spec(194) == Some(Block::BirchDoor));
            },
            Block::JungleDoor => {
                assert(Self::from_code_spec(195) == Some(Block::JungleDoor));
            },
            Block::AcaciaDoor => {
                assert(Self::from_code_spec(196) == Some(Block::AcaciaDoor));
            },
            Block::DarkOakDoor => {
                assert(Self::from_code_spec(197) == Some(Block::DarkOakDoor));
            },
            Block::EndRod => {
                assert(Self::from_code_spec(198) == Some(Block::EndRod));
            },
            Block::ChorusPlant => {
                assert(Self::from_code_spec(199) == Some(Block::ChorusPlant));
            },
            Block::ChorusFlower => {
                assert(Self::from_code_spec(200) == Some(Block::ChorusFlower));
            },
            Block::PurpurBlock => {
                assert(Self::from_code_spec(201) == Some(Block::PurpurBlock));
            },
            Block::PurpurPillar => {
                assert(Self::from_code_spec(202) == Some(Block::PurpurPillar));
            },
            Block::PurpurStairs => {
                assert(Self::from_code_spec(203) == Some(Block::PurpurStairs));
            },
            Block::PurpurSlabBottom => {
                assert(Self::from_code_spec(204) == Some(Block::PurpurSlabBottom));
            },
            Block::PurpurSlabUp => {
                assert(Self::from_code_spec(205) == Some(Block::PurpurSlabUp));
            },
            Block::EndBricks => {
                assert(Self::from_code_spec(206) == Some(Block::EndBricks));
            },
            Block::BeetrootBlock => {
                assert(Self::from_code_spec(207) == Some(Block::BeetrootBlock));
            },
            Block::GrassPath => {
                assert(Self::from_code_spec(208) == Some(Block::GrassPath));
            },
            Block::EndGateway => {
                assert(Self::from_code_spec(209) == Some(Block::EndGateway));
            },
            Block::CommandRepeating => {
                assert(Self::from_code_spec(210) == Some(Block::CommandRepeating));
            },
            Block::CommandChain => {
                assert(Self::from_code_spec(211) == Some(Block::CommandChain));
            },
            Block::FrostedIce => {
                assert(Self::from_code_spec(212) == Some(Block::FrostedIce));
            },
            Block::Magma => {
                assert(Self::from_code_spec(213) == Some(Block::Magma));
            },
            Block::NetherWartBlock => {
                assert(Self::from_code_spec(214) == Some(Block::NetherWartBlock));
            },
            Block::RedNetherBrick => {
                assert(Self::from_code_spec(215) == Some(Block::RedNetherBrick));
            },
            Block::BoneBlock => {
                assert(Self::from_code_spec(216) == Some(Block::BoneBlock));
            },
            Block::StructureVoid => {
                assert(Self::from_code_spec(217) == Some(Block::StructureVoid));
            },
            Block::Observer => {
                assert(Self::from_code_spec(218) == Some(Block::Observer));
            },
            Block::WhiteShulkerBox => {
                assert(Self::from_code_spec(219) == Some(Block::WhiteShulkerBox));
            },
            Block::OrangeShulkerBox => {
                assert(Self::from_code_spec(220) == Some(Block::OrangeShulkerBox));
            },
            Block::MagentaShulkerBox => {
                assert(Self::from_code_spec(221) == Some(Block::MagentaShulkerBox));
            },
            Block::LightBlueShulkerBox => {
                assert(Self::from_code_spec(222) == Some(Block::LightBlueShulkerBox));
            },
            Block::YellowShulkerBox => {
                assert(Self::from_code_spec(223) == Some(Block::YellowShulkerBox));
            },
            Block::LimeShulkerBox => {
                assert(Self::from_code_spec(224) == Some(Block::LimeShulkerBox));
            },
            Block::PinkShulkerBox => {
                assert(Self::from_code_spec(225) == Some(Block::PinkShulkerBox));
            },
            Block::GrayShulkerBox => {
                assert(Self::from_code_spec(226) == Some(Block::GrayShulkerBox));
            },
            Block::SilverShulkerBox => {
                assert(Self::from_code_spec(227) == Some(Block::SilverShulkerBox));
            },
            Block::CyanShulkerBox => {
                assert(Self::from_code_spec(228) == Some(Block::CyanShulkerBox));
            },
            Block::PurpleShulkerBox => {
                assert(Self::from_code_spec(229) == Some(Block::PurpleShulkerBox));
            },
            Block::BlueShulkerBox => {
                assert(Self::from_code_spec(230) == Some(Block::BlueShulkerBox));
            },
            Block::BrownShulkerBox => {
                assert(Self::from_code_spec(231) == Some(Block::BrownShulkerBox));
            },
            Block::GreenShulkerBox => {
                assert(Self::from_code_spec(232) == Some(Block::GreenShulkerBox));
            },
            Block::RedShulkerBox => {
                assert(Self::from_code_spec(233) == Some(Block::RedShulkerBox));
            },
            Block::BlackShulkerBox => {
                assert(Self::from_code_spec(234) == Some(Block::BlackShulkerBox));
            },
            Block::WhiteGlazedTerracotta => {
                assert(Self::from_code_spec(235) == Some(Block::WhiteGlazedTerracotta));
            },
            Block::OrangeGlazedTerracotta => {
                assert(Self::from_code_spec(236) == Some(Block::OrangeGlazedTerracotta));
            },
            Block::MagentaGlazedTerracotta => {
                assert(Self::from_code_spec(237) == Some(Block::MagentaGlazedTerracotta));
            },
            Block::LightBlueGlazedTerracotta => {
                assert(Self::from_code_spec(238) == Some(Block::LightBlueGlazedTerracotta));
            },
            Block::YellowGlazedTerracotta => {
                assert(Self::from_code_spec(239) == Some(Block::YellowGlazedTerracotta));
            },
            Block::LimeGlazedTerracotta => {
                assert(Self::from_code_spec(240) == Some(Block::LimeGlazedTerracotta));
            },
            Block::PinkGlazedTerracotta => {
                assert(Self::from_code_spec(241) == Some(Block::PinkGlazedTerracotta));
            },
            Block::GrayGlazedTerracotta => {
                assert(Self::from_code_spec(242) == Some(Block::GrayGlazedTerracotta));
            },
            Block::SilverGlazedTerracotta => {
                assert(Self::from_code_spec(243) == Some(Block::SilverGlazedTerracotta));
            },
            Block::CyanGlazedTerracotta => {
                assert(Self::from_code_spec(244) == Some(Block::CyanGlazedTerracotta));
            },
            Block::PurpleGlazedTerracotta => {
                assert(Self::from_code_spec(245) == Some(Block::PurpleGlazedTerracotta));
            },
            Block::BlueGlazedTerracotta => {
                assert(Self::from_code_spec(246) == Some(Block::BlueGlazedTerracotta));
            },
            Block::BrownGlazedTerracotta => {
                assert(Self::from_code_spec(247) == Some(Block::BrownGlazedTerracotta));
            },
            Block::GreenGlazedTerracotta => {
                assert(Self::from_code_spec(248) == Some(Block::GreenGlazedTerracotta));
            },
            Block::RedGlazedTerracotta => {
                assert(Self::from_code_spec(249) == Some(Block::RedGlazedTerracotta));
            },
            Block::BlackGlazedTerracotta => {
                assert(Self::from_code_spec(250) == Some(Block::BlackGlazedTerracotta));
            },
            Block::Concrete => {
                assert(Self::from_code_spec(251) == Some(Block::Concrete));
            },
            Block::ConcretePowder => {
                assert(Self::from_code_spec(252) == Some(Block::ConcretePowder));
            },
            Block::StructureBlock => {
                assert(Self::from_code_spec(255) == Some(Block::StructureBlock));
            },
        }
    }

    /// Two voxel types with the same registry code are the same voxel type.
    pub proof fn lemma_code_injective(a: Block, b: Block)
        requires
            a.code_spec() == b.code_spec(),
        ensures
            a == b,
    {
        Self::lemma_code_round_trip(a);
        Self::lemma_code_round_trip(b);
    }
}

} // verus!
