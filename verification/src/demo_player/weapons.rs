//! The weapons of the game and the item definition indices that denote them.

use vstd::prelude::*;

verus! {

/// A weapon, or another item that a player can hold or wear in a weapon slot.
#[allow(non_camel_case_types)]
#[derive(Debug, Clone, Copy, PartialEq, Eq, Structural, Hash)]
pub enum Weapon {
    Unknown,
    AirStrike,
    AliBabasWeeBooties,
    Ambassador,
    Amputator,
    ApocoFists,
    ApSap,
    Atomizer,
    AWPerHand,
    Axtinguisher,
    BabyFaceBlaster,
    Backburner,
    BackScatter,
    BackScratcher,
    BASEJumper,
    Bat,
    BatOuttaHell,
    BatSaber,
    BattalionsBackup,
    BazaarBargain,
    BeggarsBazooka,
    BigEarner,
    BigKill,
    BlackBox,
    BlackRose,
    Blutsauger,
    Bonesaw,
    BonkAtomicPunch,
    Bootlegger,
    BostonBasher,
    Bottle,
    BrassBeast,
    BreadBite,
    BuffaloSteakSandvich,
    BuffBanner,
    Bushwacka,
    CandyCane,
    CAPPER,
    CharginTarge,
    ClaidheamhMor,
    Classic,
    CleanersCarbine,
    CloakAndDagger,
    Concheror,
    ConniversKunai,
    ConscientiousObjector,
    ConstructionPDA,
    CowMangler5000,
    CozyCamper,
    CrossingGuard,
    CrusadersCrossbow,
    DalokohsBar,
    Deflector,
    Degreaser,
    DarwinsDangerShield,
    DeadRinger,
    DestructionPDA,
    Detonator,
    Diamondback,
    DisguiseKitPDA,
    DirectHit,
    DisciplinaryAction,
    DragonsFury,
    Enforcer,
    EnthusiastsTimepiece,
    Equalizer,
    EscapePlan,
    EurekaEffect,
    EvictionNotice,
    Eyelander,
    FamilyBusiness,
    FanOWar,
    FireAxe,
    Fishcake,
    Fists,
    FistsOfSteel,
    FlameThrower,
    FlareGun,
    FlyingGuillotine,
    ForceANature,
    FortifiedCompound,
    FreedomStaff,
    FrontierJustice,
    FryingPan,
    GasPasser,
    GigarCounter,
    GlovesOfRunningUrgently,
    GoldenFryingPan,
    GoldenWrench,
    GrenadeLauncher,
    Gunboats,
    Gunslinger,
    HalfZatoichi,
    HamShank,
    HitmansHeatmaker,
    HolidayPunch,
    HolyMackerel,
    Homewrecker,
    Huntsman,
    HorselessHeadlessHorsemannsHeadtaker,
    HotHand,
    HuoLongHeater,
    InvisWatch,
    IronBomber,
    IronCurtain,
    Jag,
    Jarate,
    KillingGlovesOfBoxing,
    Knife,
    Kritzkrieg,
    Kukri,
    LEtranger,
    LibertyLauncher,
    LochNLoad,
    Lollichop,
    LooseCannon,
    Lugermorph,
    Machina,
    Manmelter,
    Mantreads,
    MarketGardener,
    Maul,
    MediGun,
    MemoryMaker,
    Minigun,
    MutatedMilk,
    Natascha,
    NecroSmasher,
    NeonAnnihilator,
    NessiesNineIron,
    NostromoNapalmer,
    Original,
    Overdose,
    PainTrain,
    PanicAttack,
    PersianPersuader,
    Phlogistinator,
    Pistol,
    Pomson6000,
    PostalPummeler,
    Powerjack,
    PrettyBoysPocketPistol,
    PrinnyMachete,
    Quackenbirdt,
    QuickFix,
    QuickiebombLauncher,
    Rainblower,
    Razorback,
    RedTapeRecorder,
    RescueRanger,
    ReserveShooter,
    Revolver,
    RighteousBison,
    RoboSandvich,
    RocketJumper,
    RocketLauncher,
    Sandman,
    Sandvich,
    Sapper,
    Saxxy,
    Scattergun,
    ScorchShot,
    ScotsmansSkullcutter,
    ScottishHandshake,
    ScottishResistance,
    SecondBanana,
    SelfAwareBeautyMark,
    Shahanshah,
    SharpDresser,
    SharpenedVolcanoFragment,
    ShootingStar,
    ShortCircuit,
    Shortstop,
    Shotgun,
    Shovel,
    SMG,
    SnackAttack,
    SniperRifle,
    SodaPopper,
    SolemnVow,
    SouthernHospitality,
    SplendidScreen,
    Spycicle,
    StickybombLauncher,
    StickyJumper,
    SunOnAStick,
    SydneySleeper,
    SyringeGun,
    ThermalThruster,
    ThreeRuneBlade,
    ThirdDegree,
    TideTurner,
    Tomislav,
    Toolbox,
    TribalmansShiv,
    Ubersaw,
    UllapoolCaber,
    UnarmedCombat,
    Vaccinator,
    VitaSaw,
    WangaPrick,
    WarriorsSpirit,
    Widowmaker,
    Winger,
    Wrangler,
    WrapAssassin,
    Wrench,
    YourEternalReward,
}

/// The weapon that the item definition index `index` denotes, or `Unknown` where it denotes
/// none. Every skin and every strange, festive or renamed variant of a weapon has an index
/// of its own.
pub open spec fn weapon_of(index: i32) -> Weapon {
    if index == 1104 {
        Weapon::AirStrike
    } else if index == 405 {
        Weapon::AliBabasWeeBooties
    } else if index == 61 || index == 1006 {
        Weapon::Ambassador
    } else if index == 304 {
        Weapon::Amputator
    } else if index == 587 {
        Weapon::ApocoFists
    } else if index == 933 {
        Weapon::ApSap
    } else if index == 450 {
        Weapon::Atomizer
    } else if index == 851 {
        Weapon::AWPerHand
    } else if index == 38 || index == 1000 {
        Weapon::Axtinguisher
    } else if index == 772 {
        Weapon::BabyFaceBlaster
    } else if index == 40 || index == 1146 {
        Weapon::Backburner
    } else if index == 1103 {
        Weapon::BackScatter
    } else if index == 326 {
        Weapon::BackScratcher
    } else if index == 1101 {
        Weapon::BASEJumper
    } else if index == 0 || index == 190 || index == 660 {
        Weapon::Bat
    } else if index == 939 {
        Weapon::BatOuttaHell
    } else if index == 30667 {
        Weapon::BatSaber
    } else if index == 226 {
        Weapon::BattalionsBackup
    } else if index == 402 {
        Weapon::BazaarBargain
    } else if index == 730 {
        Weapon::BeggarsBazooka
    } else if index == 461 {
        Weapon::BigEarner
    } else if index == 161 {
        Weapon::BigKill
    } else if index == 228 || index == 1085 {
        Weapon::BlackBox
    } else if index == 727 {
        Weapon::BlackRose
    } else if index == 36 {
        Weapon::Blutsauger
    } else if index == 8 || index == 198 || index == 1143 {
        Weapon::Bonesaw
    } else if index == 46 || index == 1145 {
        Weapon::BonkAtomicPunch
    } else if index == 608 {
        Weapon::Bootlegger
    } else if index == 325 {
        Weapon::BostonBasher
    } else if index == 1 || index == 191 {
        Weapon::Bottle
    } else if index == 312 {
        Weapon::BrassBeast
    } else if index == 1100 {
        Weapon::BreadBite
    } else if index == 311 {
        Weapon::BuffaloSteakSandvich
    } else if index == 129 || index == 1001 {
        Weapon::BuffBanner
    } else if index == 232 {
        Weapon::Bushwacka
    } else if index == 317 {
        Weapon::CandyCane
    } else if index == 30666 {
        Weapon::CAPPER
    } else if index == 131 || index == 1144 {
        Weapon::CharginTarge
    } else if index == 327 {
        Weapon::ClaidheamhMor
    } else if index == 1098 {
        Weapon::Classic
    } else if index == 751 {
        Weapon::CleanersCarbine
    } else if index == 60 {
        Weapon::CloakAndDagger
    } else if index == 354 {
        Weapon::Concheror
    } else if index == 356 {
        Weapon::ConniversKunai
    } else if index == 474 {
        Weapon::ConscientiousObjector
    } else if index == 25 || index == 737 {
        Weapon::ConstructionPDA
    } else if index == 441 {
        Weapon::CowMangler5000
    } else if index == 642 {
        Weapon::CozyCamper
    } else if index == 1127 {
        Weapon::CrossingGuard
    } else if index == 305 || index == 1079 {
        Weapon::CrusadersCrossbow
    } else if index == 159 {
        Weapon::DalokohsBar
    } else if index == 850 {
        Weapon::Deflector
    } else if index == 215 {
        Weapon::Degreaser
    } else if index == 231 {
        Weapon::DarwinsDangerShield
    } else if index == 59 {
        Weapon::DeadRinger
    } else if index == 26 {
        Weapon::DestructionPDA
    } else if index == 351 {
        Weapon::Detonator
    } else if index == 525 {
        Weapon::Diamondback
    } else if index == 27 {
        Weapon::DisguiseKitPDA
    } else if index == 127 {
        Weapon::DirectHit
    } else if index == 447 {
        Weapon::DisciplinaryAction
    } else if index == 1178 {
        Weapon::DragonsFury
    } else if index == 460 {
        Weapon::Enforcer
    } else if index == 297 {
        Weapon::EnthusiastsTimepiece
    } else if index == 128 {
        Weapon::Equalizer
    } else if index == 775 {
        Weapon::EscapePlan
    } else if index == 589 {
        Weapon::EurekaEffect
    } else if index == 426 {
        Weapon::EvictionNotice
    } else if index == 132 || index == 1082 {
        Weapon::Eyelander
    } else if index == 425 {
        Weapon::FamilyBusiness
    } else if index == 355 {
        Weapon::FanOWar
    } else if index == 2 || index == 192 {
        Weapon::FireAxe
    } else if index == 433 {
        Weapon::Fishcake
    } else if index == 5 || index == 195 {
        Weapon::Fists
    } else if index == 331 {
        Weapon::FistsOfSteel
    } else if index == 21 || index == 208 || index == 659 || index == 798 || index == 807
        || index == 887 || index == 896 || index == 905 || index == 914 || index == 963
        || index == 972 || index == 15005 || index == 15017 || index == 15030
        || index == 15034 || index == 15049 || index == 15054 || index == 15066
        || index == 15067 || index == 15068 || index == 15089 || index == 15090
        || index == 15115 || index == 15141 {
        Weapon::FlameThrower
    } else if index == 39 || index == 1081 {
        Weapon::FlareGun
    } else if index == 812 || index == 833 {
        Weapon::FlyingGuillotine
    } else if index == 45 || index == 1078 {
        Weapon::ForceANature
    } else if index == 1092 {
        Weapon::FortifiedCompound
    } else if index == 880 {
        Weapon::FreedomStaff
    } else if index == 141 || index == 1004 {
        Weapon::FrontierJustice
    } else if index == 264 {
        Weapon::FryingPan
    } else if index == 1180 {
        Weapon::GasPasser
    } else if index == 30668 {
        Weapon::GigarCounter
    } else if index == 239 || index == 1084 || index == 1184 {
        Weapon::GlovesOfRunningUrgently
    } else if index == 1071 {
        Weapon::GoldenFryingPan
    } else if index == 169 {
        Weapon::GoldenWrench
    } else if index == 19 || index == 206 || index == 1007 || index == 15077 || index == 15079
        || index == 15091 || index == 15092 || index == 15116 || index == 15117
        || index == 15142 || index == 15158 {
        Weapon::GrenadeLauncher
    } else if index == 133 {
        Weapon::Gunboats
    } else if index == 142 {
        Weapon::Gunslinger
    } else if index == 357 {
        Weapon::HalfZatoichi
    } else if index == 1013 {
        Weapon::HamShank
    } else if index == 752 {
        Weapon::HitmansHeatmaker
    } else if index == 656 {
        Weapon::HolidayPunch
    } else if index == 221 || index == 999 {
        Weapon::HolyMackerel
    } else if index == 153 {
        Weapon::Homewrecker
    } else if index == 56 || index == 1005 {
        Weapon::Huntsman
    } else if index == 266 {
        Weapon::HorselessHeadlessHorsemannsHeadtaker
    } else if index == 1181 {
        Weapon::HotHand
    } else if index == 811 || index == 832 {
        Weapon::HuoLongHeater
    } else if index == 30 || index == 212 {
        Weapon::InvisWatch
    } else if index == 1151 {
        Weapon::IronBomber
    } else if index == 298 {
        Weapon::IronCurtain
    } else if index == 329 {
        Weapon::Jag
    } else if index == 58 || index == 1083 {
        Weapon::Jarate
    } else if index == 43 {
        Weapon::KillingGlovesOfBoxing
    } else if index == 4 || index == 194 || index == 665 || index == 794 || index == 803
        || index == 883 || index == 892 || index == 901 || index == 910 || index == 959
        || index == 968 || index == 15080 || index == 15094 || index == 15095
        || index == 15096 || index == 15118 || index == 15119 || index == 15143
        || index == 15144 {
        Weapon::Knife
    } else if index == 35 {
        Weapon::Kritzkrieg
    } else if index == 3 || index == 193 {
        Weapon::Kukri
    } else if index == 224 {
        Weapon::LEtranger
    } else if index == 414 {
        Weapon::LibertyLauncher
    } else if index == 308 {
        Weapon::LochNLoad
    } else if index == 739 {
        Weapon::Lollichop
    } else if index == 996 {
        Weapon::LooseCannon
    } else if index == 160 {
        Weapon::Lugermorph
    } else if index == 526 {
        Weapon::Machina
    } else if index == 595 {
        Weapon::Manmelter
    } else if index == 444 {
        Weapon::Mantreads
    } else if index == 416 {
        Weapon::MarketGardener
    } else if index == 466 {
        Weapon::Maul
    } else if index == 29 || index == 211 || index == 663 || index == 796 || index == 805
        || index == 885 || index == 894 || index == 903 || index == 912 || index == 961
        || index == 970 || index == 15008 || index == 15010 || index == 15025
        || index == 15039 || index == 15050 || index == 15078 || index == 15097
        || index == 15120 || index == 15121 || index == 15122 || index == 15145
        || index == 15146 {
        Weapon::MediGun
    } else if index == 954 {
        Weapon::MemoryMaker
    } else if index == 15 || index == 202 || index == 654 || index == 793 || index == 802
        || index == 882 || index == 891 || index == 900 || index == 909 || index == 958
        || index == 967 || index == 15004 || index == 15020 || index == 15026
        || index == 15031 || index == 15040 || index == 15055 || index == 15086
        || index == 15087 || index == 15088 || index == 15098 || index == 15099
        || index == 15123 || index == 15124 || index == 15125 || index == 15147 {
        Weapon::Minigun
    } else if index == 1121 {
        Weapon::MutatedMilk
    } else if index == 41 {
        Weapon::Natascha
    } else if index == 1123 {
        Weapon::NecroSmasher
    } else if index == 813 || index == 834 {
        Weapon::NeonAnnihilator
    } else if index == 482 {
        Weapon::NessiesNineIron
    } else if index == 30474 {
        Weapon::NostromoNapalmer
    } else if index == 513 {
        Weapon::Original
    } else if index == 412 {
        Weapon::Overdose
    } else if index == 154 {
        Weapon::PainTrain
    } else if index == 1153 {
        Weapon::PanicAttack
    } else if index == 404 {
        Weapon::PersianPersuader
    } else if index == 594 {
        Weapon::Phlogistinator
    } else if index == 23 || index == 209 || index == 15013 || index == 15018 || index == 15035
        || index == 15041 || index == 15046 || index == 15056 || index == 15060
        || index == 15061 || index == 15100 || index == 15101 || index == 15102
        || index == 15126 || index == 15148 || index == 22 {
        Weapon::Pistol
    } else if index == 588 {
        Weapon::Pomson6000
    } else if index == 457 {
        Weapon::PostalPummeler
    } else if index == 214 {
        Weapon::Powerjack
    } else if index == 773 {
        Weapon::PrettyBoysPocketPistol
    } else if index == 30758 {
        Weapon::PrinnyMachete
    } else if index == 947 {
        Weapon::Quackenbirdt
    } else if index == 411 {
        Weapon::QuickFix
    } else if index == 1150 {
        Weapon::QuickiebombLauncher
    } else if index == 741 {
        Weapon::Rainblower
    } else if index == 57 {
        Weapon::Razorback
    } else if index == 810 || index == 831 {
        Weapon::RedTapeRecorder
    } else if index == 997 {
        Weapon::RescueRanger
    } else if index == 415 {
        Weapon::ReserveShooter
    } else if index == 24 || index == 210 || index == 1142 || index == 15011 || index == 15027
        || index == 15042 || index == 15051 || index == 15062 || index == 15063
        || index == 15064 || index == 15103 || index == 15127 || index == 15128
        || index == 15149 {
        Weapon::Revolver
    } else if index == 442 {
        Weapon::RighteousBison
    } else if index == 863 {
        Weapon::RoboSandvich
    } else if index == 237 {
        Weapon::RocketJumper
    } else if index == 18 || index == 205 || index == 658 || index == 800 || index == 809
        || index == 889 || index == 898 || index == 907 || index == 916 || index == 965
        || index == 974 || index == 15006 || index == 15014 || index == 15028
        || index == 15043 || index == 15052 || index == 15057 || index == 15081
        || index == 15104 || index == 15105 || index == 15129 || index == 15130
        || index == 15150 {
        Weapon::RocketLauncher
    } else if index == 44 {
        Weapon::Sandman
    } else if index == 42 || index == 1002 {
        Weapon::Sandvich
    } else if index == 735 || index == 736 || index == 1080 {
        Weapon::Sapper
    } else if index == 423 {
        Weapon::Saxxy
    } else if index == 13 || index == 200 || index == 669 || index == 799 || index == 808
        || index == 888 || index == 897 || index == 906 || index == 915 || index == 964
        || index == 973 || index == 15002 || index == 15015 || index == 15021
        || index == 15029 || index == 15036 || index == 15053 || index == 15065
        || index == 15069 || index == 15106 || index == 15107 || index == 15108
        || index == 15131 || index == 15151 || index == 15157 {
        Weapon::Scattergun
    } else if index == 740 {
        Weapon::ScorchShot
    } else if index == 172 {
        Weapon::ScotsmansSkullcutter
    } else if index == 609 {
        Weapon::ScottishHandshake
    } else if index == 130 {
        Weapon::ScottishResistance
    } else if index == 1190 {
        Weapon::SecondBanana
    } else if index == 1105 {
        Weapon::SelfAwareBeautyMark
    } else if index == 401 {
        Weapon::Shahanshah
    } else if index == 638 {
        Weapon::SharpDresser
    } else if index == 348 {
        Weapon::SharpenedVolcanoFragment
    } else if index == 30665 {
        Weapon::ShootingStar
    } else if index == 528 {
        Weapon::ShortCircuit
    } else if index == 220 {
        Weapon::Shortstop
    } else if index == 10 || index == 199 || index == 1141 || index == 15003 || index == 15016
        || index == 15044 || index == 15047 || index == 15085 || index == 15109
        || index == 15132 || index == 15133 || index == 15152 || index == 12 || index == 11
        || index == 9 {
        Weapon::Shotgun
    } else if index == 6 || index == 196 {
        Weapon::Shovel
    } else if index == 16 || index == 203 || index == 1149 || index == 15001 || index == 15022
        || index == 15032 || index == 15037 || index == 15058 || index == 15076
        || index == 15110 || index == 15134 || index == 15153 {
        Weapon::SMG
    } else if index == 1102 {
        Weapon::SnackAttack
    } else if index == 14 || index == 201 || index == 664 || index == 792 || index == 801
        || index == 881 || index == 890 || index == 899 || index == 908 || index == 957
        || index == 966 || index == 15000 || index == 15007 || index == 15019
        || index == 15023 || index == 15033 || index == 15059 || index == 15070
        || index == 15071 || index == 15072 || index == 15111 || index == 15112
        || index == 15135 || index == 15136 || index == 15154 {
        Weapon::SniperRifle
    } else if index == 448 {
        Weapon::SodaPopper
    } else if index == 413 {
        Weapon::SolemnVow
    } else if index == 155 {
        Weapon::SouthernHospitality
    } else if index == 406 {
        Weapon::SplendidScreen
    } else if index == 649 {
        Weapon::Spycicle
    } else if index == 20 || index == 207 || index == 661 || index == 797 || index == 806
        || index == 886 || index == 895 || index == 904 || index == 913 || index == 962
        || index == 971 || index == 15009 || index == 15012 || index == 15024
        || index == 15038 || index == 15045 || index == 15048 || index == 15082
        || index == 15083 || index == 15084 || index == 15113 || index == 15137
        || index == 15138 || index == 15155 {
        Weapon::StickybombLauncher
    } else if index == 265 {
        Weapon::StickyJumper
    } else if index == 349 {
        Weapon::SunOnAStick
    } else if index == 230 {
        Weapon::SydneySleeper
    } else if index == 17 || index == 204 {
        Weapon::SyringeGun
    } else if index == 1179 {
        Weapon::ThermalThruster
    } else if index == 452 {
        Weapon::ThreeRuneBlade
    } else if index == 593 {
        Weapon::ThirdDegree
    } else if index == 1099 {
        Weapon::TideTurner
    } else if index == 424 {
        Weapon::Tomislav
    } else if index == 28 {
        Weapon::Toolbox
    } else if index == 171 {
        Weapon::TribalmansShiv
    } else if index == 37 || index == 1003 {
        Weapon::Ubersaw
    } else if index == 307 {
        Weapon::UllapoolCaber
    } else if index == 572 {
        Weapon::UnarmedCombat
    } else if index == 998 {
        Weapon::Vaccinator
    } else if index == 173 {
        Weapon::VitaSaw
    } else if index == 574 {
        Weapon::WangaPrick
    } else if index == 310 {
        Weapon::WarriorsSpirit
    } else if index == 527 {
        Weapon::Widowmaker
    } else if index == 449 {
        Weapon::Winger
    } else if index == 140 || index == 1086 {
        Weapon::Wrangler
    } else if index == 648 {
        Weapon::WrapAssassin
    } else if index == 7 || index == 197 || index == 662 || index == 795 || index == 804
        || index == 884 || index == 893 || index == 902 || index == 911 || index == 960
        || index == 969 || index == 15073 || index == 15074 || index == 15075
        || index == 15139 || index == 15140 || index == 15114 || index == 15156 {
        Weapon::Wrench
    } else if index == 225 {
        Weapon::YourEternalReward
    } else {
        Weapon::Unknown
    }
}

/// Whether the item definition index `index` denotes `weapon`. No index denotes `Unknown`.
pub open spec fn denotes(index: i32, weapon: Weapon) -> bool {
    weapon != Weapon::Unknown && weapon_of(index) == weapon
}

/// Looks up the weapon that an item definition index denotes.
#[verifier::rlimit(100)]
pub fn index_to_weapon(index: i32) -> (weapon: Weapon)
    ensures
        weapon == weapon_of(index),
        weapon != Weapon::Unknown <==> denotes(index, weapon),
{
    match index {
        13 => Weapon::Scattergun,
        200 => Weapon::Scattergun,  // Renamed/Strange
        45 => Weapon::ForceANature,
        220 => Weapon::Shortstop,
        448 => Weapon::SodaPopper,
        669 => Weapon::Scattergun,  // Festive
        772 => Weapon::BabyFaceBlaster,
        799 => Weapon::Scattergun,  // Silver Botkiller Scattergun Mk.I
        808 => Weapon::Scattergun,  // Gold Botkiller Scattergun Mk.I
        888 => Weapon::Scattergun,  // Rust Botkiller Scattergun Mk.I
        897 => Weapon::Scattergun,  // Blood Botkiller Scattergun Mk.I
        906 => Weapon::Scattergun,  // Carbonado Botkiller Scattergun Mk.I
        915 => Weapon::Scattergun,  // Diamond Botkiller Scattergun Mk.I
        964 => Weapon::Scattergun,  // Silver Botkiller Scattergun Mk.II
        973 => Weapon::Scattergun,  // Gold Botkiller Scattergun Mk.II
        1078 => Weapon::ForceANature,  // Festive
        1103 => Weapon::BackScatter,
        15002 => Weapon::Scattergun,  // Night Terror
        15015 => Weapon::Scattergun,  // Tartan Torpedo
        15021 => Weapon::Scattergun,  // Country Crusher
        15029 => Weapon::Scattergun,  // Backcountry Blaster
        15036 => Weapon::Scattergun,  // Spruce Deuce
        15053 => Weapon::Scattergun,  // Current Event
        15065 => Weapon::Scattergun,  // Macabre Web
        15069 => Weapon::Scattergun,  // Nutcracker
        15106 => Weapon::Scattergun,  // Blue Mew
        15107 => Weapon::Scattergun,  // Flower Power
        15108 => Weapon::Scattergun,  // Shot to Hell
        15131 => Weapon::Scattergun,  // Coffin Nail
        15151 => Weapon::Scattergun,  // Killer Bee
        15157 => Weapon::Scattergun,  // Corsair

        23 => Weapon::Pistol,
        209 => Weapon::Pistol,  // Renamed/Strange
        46 => Weapon::BonkAtomicPunch,
        160 => Weapon::Lugermorph,  // Vintage
        449 => Weapon::Winger,
        773 => Weapon::PrettyBoysPocketPistol,
        812 => Weapon::FlyingGuillotine,
        833 => Weapon::FlyingGuillotine,  // Genuine
        1121 => Weapon::MutatedMilk,
        1145 => Weapon::BonkAtomicPunch,  // Festive
        15013 => Weapon::Pistol,  // Red Rock Roscoe
        15018 => Weapon::Pistol,  // Homemade Heater
        15035 => Weapon::Pistol,  // Hickory Holepuncher
        15041 => Weapon::Pistol,  // Local Hero
        15046 => Weapon::Pistol,  // Black Dahlia
        15056 => Weapon::Pistol,  // Sandstone Special
        15060 => Weapon::Pistol,  // Macabre Web
        15061 => Weapon::Pistol,  // Nutcracker
        15100 => Weapon::Pistol,  // Blue Mew
        15101 => Weapon::Pistol,  // Brain Candy
        15102 => Weapon::Pistol,  // Shot to Hell
        15126 => Weapon::Pistol,  // Dressed To Kill
        15148 => Weapon::Pistol,  // Blitzkrieg
        30666 => Weapon::CAPPER,

        0 => Weapon::Bat,
        190 => Weapon::Bat,  // Renamed/Strange
        44 => Weapon::Sandman,
        221 => Weapon::HolyMackerel,
        264 => Weapon::FryingPan,
        317 => Weapon::CandyCane,
        325 => Weapon::BostonBasher,
        349 => Weapon::SunOnAStick,
        355 => Weapon::FanOWar,
        423 => Weapon::Saxxy,
        450 => Weapon::Atomizer,
        452 => Weapon::ThreeRuneBlade,
        474 => Weapon::ConscientiousObjector,
        572 => Weapon::UnarmedCombat,
        648 => Weapon::WrapAssassin,
        660 => Weapon::Bat,  // Festive
        880 => Weapon::FreedomStaff,
        939 => Weapon::BatOuttaHell,
        954 => Weapon::MemoryMaker,
        999 => Weapon::HolyMackerel,  // Festive
        1013 => Weapon::HamShank,
        1071 => Weapon::GoldenFryingPan,
        1123 => Weapon::NecroSmasher,
        1127 => Weapon::CrossingGuard,
        30667 => Weapon::BatSaber,
        30758 => Weapon::PrinnyMachete,

        18 => Weapon::RocketLauncher,
        205 => Weapon::RocketLauncher,  // Renamed/Strange
        127 => Weapon::DirectHit,
        228 => Weapon::BlackBox,
        237 => Weapon::RocketJumper,
        414 => Weapon::LibertyLauncher,
        441 => Weapon::CowMangler5000,
        513 => Weapon::Original,
        658 => Weapon::RocketLauncher,  // Festive
        730 => Weapon::BeggarsBazooka,
        800 => Weapon::RocketLauncher,  // Silver Botkiller Rocket Launcher Mk.I
        809 => Weapon::RocketLauncher,  // Gold Botkiller Rocket Launcher Mk.I
        889 => Weapon::RocketLauncher,  // Rust Botkiller Rocket Launcher Mk.I
        898 => Weapon::RocketLauncher,  // Blood Botkiller Rocket Launcher Mk.I
        907 => Weapon::RocketLauncher,  // Carbonado Botkiller Rocket Launcher Mk.I
        916 => Weapon::RocketLauncher,  // Diamond Botkiller Rocket Launcher Mk.I
        965 => Weapon::RocketLauncher,  // Silver Botkiller Rocket Launcher Mk.II
        974 => Weapon::RocketLauncher,  // Gold Botkiller Rocket Launcher Mk.II
        1085 => Weapon::BlackBox,  // Festive
        1104 => Weapon::AirStrike,
        15006 => Weapon::RocketLauncher,  // Woodland Warrior
        15014 => Weapon::RocketLauncher,  // Sand Cannon
        15028 => Weapon::RocketLauncher,  // American Pastoral
        15043 => Weapon::RocketLauncher,  // Smalltown Bringdown
        15052 => Weapon::RocketLauncher,  // Shell Shocker
        15057 => Weapon::RocketLauncher,  // Aqua Marine
        15081 => Weapon::RocketLauncher,  // Autumn
        15104 => Weapon::RocketLauncher,  // Blue Mew
        15105 => Weapon::RocketLauncher,  // Brain Candy
        15129 => Weapon::RocketLauncher,  // Coffin Nail
        15130 => Weapon::RocketLauncher,  // High Roller's
        15150 => Weapon::RocketLauncher,  // Warhawk

        10 => Weapon::Shotgun,
        199 => Weapon::Shotgun,  // Renamed/Strange
        129 => Weapon::BuffBanner,
        133 => Weapon::Gunboats,
        226 => Weapon::BattalionsBackup,
        354 => Weapon::Concheror,
        415 => Weapon::ReserveShooter,
        442 => Weapon::RighteousBison,
        444 => Weapon::Mantreads,
        1001 => Weapon::BuffBanner,  // Festive
        1101 => Weapon::BASEJumper,
        1141 => Weapon::Shotgun,  // Festive
        1153 => Weapon::PanicAttack,
        15003 => Weapon::Shotgun,  // Backwoods Boomstick
        15016 => Weapon::Shotgun,  // Rustic Ruiner
        15044 => Weapon::Shotgun,  // Civic Duty
        15047 => Weapon::Shotgun,  // Lightning Rod
        15085 => Weapon::Shotgun,  // Autumn
        15109 => Weapon::Shotgun,  // Flower Power
        15132 => Weapon::Shotgun,  // Coffin Nail
        15133 => Weapon::Shotgun,  // Dressed to Kill
        15152 => Weapon::Shotgun,  // Red Bear

        6 => Weapon::Shovel,
        196 => Weapon::Shovel,  // Renamed/Strange
        128 => Weapon::Equalizer,
        154 => Weapon::PainTrain,
        357 => Weapon::HalfZatoichi,
        416 => Weapon::MarketGardener,
        447 => Weapon::DisciplinaryAction,
        775 => Weapon::EscapePlan,

        21 => Weapon::FlameThrower,
        208 => Weapon::FlameThrower,  // Renamed/Strange
        40 => Weapon::Backburner,
        215 => Weapon::Degreaser,
        594 => Weapon::Phlogistinator,
        659 => Weapon::FlameThrower,  // Festive
        741 => Weapon::Rainblower,
        798 => Weapon::FlameThrower,  // Silver Botkiller Flame Thrower Mk.I
        807 => Weapon::FlameThrower,  // Gold Botkiller Flame Thrower Mk.I
        887 => Weapon::FlameThrower,  // Rust Botkiller Flame Thrower Mk.I
        896 => Weapon::FlameThrower,  // Blood Botkiller Flame Thrower Mk.I
        905 => Weapon::FlameThrower,  // Carbonado Botkiller Flame Thrower Mk.I
        914 => Weapon::FlameThrower,  // Diamond Botkiller Flame Thrower Mk.I
        963 => Weapon::FlameThrower,  // Silver Botkiller Flame Thrower Mk.II
        972 => Weapon::FlameThrower,  // Gold Botkiller Flame Thrower Mk.II
        1146 => Weapon::Backburner,  // Festive
        1178 => Weapon::DragonsFury,
        15005 => Weapon::FlameThrower,  // Forest Fire
        15017 => Weapon::FlameThrower,  // Barn Burner
        15030 => Weapon::FlameThrower,  // Bovine Blazemaker
        15034 => Weapon::FlameThrower,  // Earth, Sky and Fire
        15049 => Weapon::FlameThrower,  // Flash Fryer
        15054 => Weapon::FlameThrower,  // Turbine Torcher
        15066 => Weapon::FlameThrower,  // Autumn
        15067 => Weapon::FlameThrower,  // Pumpkin Patch
        15068 => Weapon::FlameThrower,  // Nutcracker
        15089 => Weapon::FlameThrower,  // Balloonicorn
        15090 => Weapon::FlameThrower,  // Rainbow
        15115 => Weapon::FlameThrower,  // Coffin Nai
        15141 => Weapon::FlameThrower,  // Warhawk
        30474 => Weapon::NostromoNapalmer,

        12 => Weapon::Shotgun,
        39 => Weapon::FlareGun,
        351 => Weapon::Detonator,
        595 => Weapon::Manmelter,
        740 => Weapon::ScorchShot,
        1081 => Weapon::FlareGun,  // Festive
        1179 => Weapon::ThermalThruster,
        1180 => Weapon::GasPasser,

        2 => Weapon::FireAxe,
        192 => Weapon::FireAxe,  // Renamed/Strange
        38 => Weapon::Axtinguisher,
        153 => Weapon::Homewrecker,
        214 => Weapon::Powerjack,
        326 => Weapon::BackScratcher,
        348 => Weapon::SharpenedVolcanoFragment,
        457 => Weapon::PostalPummeler,
        466 => Weapon::Maul,
        593 => Weapon::ThirdDegree,
        739 => Weapon::Lollichop,
        813 => Weapon::NeonAnnihilator,
        834 => Weapon::NeonAnnihilator,  // Genuine
        1000 => Weapon::Axtinguisher,  // Festive
        1181 => Weapon::HotHand,

        19 => Weapon::GrenadeLauncher,
        206 => Weapon::GrenadeLauncher,  // Renamed/Strange
        308 => Weapon::LochNLoad,
        405 => Weapon::AliBabasWeeBooties,
        608 => Weapon::Bootlegger,
        996 => Weapon::LooseCannon,
        1007 => Weapon::GrenadeLauncher,  // Festive
        1151 => Weapon::IronBomber,
        15077 => Weapon::GrenadeLauncher,  // Autumn
        15079 => Weapon::GrenadeLauncher,  // Macabre Web
        15091 => Weapon::GrenadeLauncher,  // Rainbow
        15092 => Weapon::GrenadeLauncher,  // Sweet Dreams
        15116 => Weapon::GrenadeLauncher,  // Coffin Nail
        15117 => Weapon::GrenadeLauncher,  // Top Shelf
        15142 => Weapon::GrenadeLauncher,  // Warhawk
        15158 => Weapon::GrenadeLauncher,  // Butcher Bird

        20 => Weapon::StickybombLauncher,
        207 => Weapon::StickybombLauncher,  // Renamed/Strange
        130 => Weapon::ScottishResistance,
        131 => Weapon::CharginTarge,
        265 => Weapon::StickyJumper,
        406 => Weapon::SplendidScreen,
        661 => Weapon::StickybombLauncher,  // Festive
        797 => Weapon::StickybombLauncher,  // Silver Botkiller Stickybomb Launcher Mk.I
        806 => Weapon::StickybombLauncher,  // Gold Botkiller Stickybomb Launcher Mk.I
        886 => Weapon::StickybombLauncher,  // Rust Botkiller Stickybomb Launcher Mk.I
        895 => Weapon::StickybombLauncher,  // Blood Botkiller Stickybomb Launcher Mk.I
        904 => Weapon::StickybombLauncher,  // Carbonado Botkiller Stickybomb Launcher Mk.I
        913 => Weapon::StickybombLauncher,  // Diamond Botkiller Stickybomb Launcher Mk.I
        962 => Weapon::StickybombLauncher,  // Silver Botkiller Stickybomb Launcher Mk.II
        971 => Weapon::StickybombLauncher,  // Gold Botkiller Stickybomb Launcher Mk.II
        1099 => Weapon::TideTurner,
        1144 => Weapon::CharginTarge,  // Festive
        1150 => Weapon::QuickiebombLauncher,
        15009 => Weapon::StickybombLauncher,  // Sudden Flurry
        15012 => Weapon::StickybombLauncher,  // Carpet Bomber
        15024 => Weapon::StickybombLauncher,  // Blasted Bombardier
        15038 => Weapon::StickybombLauncher,  // Rooftop Wrangler
        15045 => Weapon::StickybombLauncher,  // Liquid Asset
        15048 => Weapon::StickybombLauncher,  // Pink Elephant
        15082 => Weapon::StickybombLauncher,  // Autumn
        15083 => Weapon::StickybombLauncher,  // Pumpkin Patch
        15084 => Weapon::StickybombLauncher,  // Macabre Web
        15113 => Weapon::StickybombLauncher,  // Sweet Dreams
        15137 => Weapon::StickybombLauncher,  // Coffin Nail
        15138 => Weapon::StickybombLauncher,  // Dressed to Kill
        15155 => Weapon::StickybombLauncher,  // Blitzkrieg

        1 => Weapon::Bottle,
        191 => Weapon::Bottle,  // Renamed/Strange
        132 => Weapon::Eyelander,
        172 => Weapon::ScotsmansSkullcutter,
        266 => Weapon::HorselessHeadlessHorsemannsHeadtaker,
        307 => Weapon::UllapoolCaber,
        327 => Weapon::ClaidheamhMor,
        404 => Weapon::PersianPersuader,
        482 => Weapon::NessiesNineIron,
        609 => Weapon::ScottishHandshake,
        1082 => Weapon::Eyelander,  // Festive

        15 => Weapon::Minigun,
        202 => Weapon::Minigun,  // Renamed/Strange
        41 => Weapon::Natascha,
        298 => Weapon::IronCurtain,
        312 => Weapon::BrassBeast,
        424 => Weapon::Tomislav,
        654 => Weapon::Minigun,  // Festive
        793 => Weapon::Minigun,  // Silver Botkiller Minigun Mk.I
        802 => Weapon::Minigun,  // Gold Botkiller Minigun Mk.I
        811 => Weapon::HuoLongHeater,
        832 => Weapon::HuoLongHeater,  // Genuine
        850 => Weapon::Deflector,
        882 => Weapon::Minigun,  // Rust Botkiller Minigun Mk.I
        891 => Weapon::Minigun,  // Blood Botkiller Minigun Mk.I
        900 => Weapon::Minigun,  // Carbonado Botkiller Minigun Mk.I
        909 => Weapon::Minigun,  // Diamond Botkiller Minigun Mk.I
        958 => Weapon::Minigun,  // Silver Botkiller Minigun Mk.II
        967 => Weapon::Minigun,  // Gold Botkiller Minigun Mk.II
        15004 => Weapon::Minigun,  // King of the Jungle
        15020 => Weapon::Minigun,  // Iron Wood
        15026 => Weapon::Minigun,  // Antique Annihilator
        15031 => Weapon::Minigun,  // War Room
        15040 => Weapon::Minigun,  // Citizen Pain
        15055 => Weapon::Minigun,  // Brick House
        15086 => Weapon::Minigun,  // Macabre Web
        15087 => Weapon::Minigun,  // Pumpkin Patch
        15088 => Weapon::Minigun,  // Nutcracker
        15098 => Weapon::Minigun,  // Brain Candy
        15099 => Weapon::Minigun,  // Mister Cuddles
        15123 => Weapon::Minigun,  // Coffin Nail
        15124 => Weapon::Minigun,  // Dressed to Kill
        15125 => Weapon::Minigun,  // Top Shelf
        15147 => Weapon::Minigun,  // Butcher Bird

        11 => Weapon::Shotgun,
        42 => Weapon::Sandvich,
        159 => Weapon::DalokohsBar,
        311 => Weapon::BuffaloSteakSandvich,
        425 => Weapon::FamilyBusiness,
        433 => Weapon::Fishcake,
        863 => Weapon::RoboSandvich,
        1002 => Weapon::Sandvich,  // Festive
        1190 => Weapon::SecondBanana,

        5 => Weapon::Fists,
        195 => Weapon::Fists,  // Renamed/Strange
        43 => Weapon::KillingGlovesOfBoxing,
        239 => Weapon::GlovesOfRunningUrgently,
        310 => Weapon::WarriorsSpirit,
        331 => Weapon::FistsOfSteel,
        426 => Weapon::EvictionNotice,
        587 => Weapon::ApocoFists,
        656 => Weapon::HolidayPunch,
        1084 => Weapon::GlovesOfRunningUrgently,  // Festive
        1100 => Weapon::BreadBite,
        1184 => Weapon::GlovesOfRunningUrgently,  // MvM

        9 => Weapon::Shotgun,
        141 => Weapon::FrontierJustice,
        527 => Weapon::Widowmaker,
        588 => Weapon::Pomson6000,
        997 => Weapon::RescueRanger,
        1004 => Weapon::FrontierJustice,  // Festive

        22 => Weapon::Pistol,
        140 => Weapon::Wrangler,
        528 => Weapon::ShortCircuit,
        1086 => Weapon::Wrangler,  // Festive
        30668 => Weapon::GigarCounter,

        7 => Weapon::Wrench,
        197 => Weapon::Wrench,  // Renamed/Strange
        142 => Weapon::Gunslinger,
        155 => Weapon::SouthernHospitality,
        169 => Weapon::GoldenWrench,
        329 => Weapon::Jag,
        589 => Weapon::EurekaEffect,
        662 => Weapon::Wrench,  // Festive
        795 => Weapon::Wrench,  // Silver Botkiller Wrench Mk.I
        804 => Weapon::Wrench,  // Gold Botkiller Wrench Mk.I
        884 => Weapon::Wrench,  // Rust Botkiller Wrench Mk.I
        893 => Weapon::Wrench,  // Blood Botkiller Wrench Mk.I
        902 => Weapon::Wrench,  // Carbonado Botkiller Wrench Mk.I
        911 => Weapon::Wrench,  // Diamond Botkiller Wrench Mk.I
        960 => Weapon::Wrench,  // Silver Botkiller Wrench Mk.II
        969 => Weapon::Wrench,  // Gold Botkiller Wrench Mk.II
        15073 => Weapon::Wrench,  // Nutcracker
        15074 => Weapon::Wrench,  // Autumn
        15075 => Weapon::Wrench,  // Boneyard
        15139 => Weapon::Wrench,  // Dressed to Kill
        15140 => Weapon::Wrench,  // Top Shelf
        15114 => Weapon::Wrench,  // Torqued to Hell
        15156 => Weapon::Wrench,  // Airwolf

        25 => Weapon::ConstructionPDA,
        737 => Weapon::ConstructionPDA,  // Renamed/Strange

        26 => Weapon::DestructionPDA,

        28 => Weapon::Toolbox,

        17 => Weapon::SyringeGun,
        204 => Weapon::SyringeGun,  // Renamed/Strange
        36 => Weapon::Blutsauger,
        305 => Weapon::CrusadersCrossbow,
        412 => Weapon::Overdose,
        1079 => Weapon::CrusadersCrossbow,  // Festive

        29 => Weapon::MediGun,
        211 => Weapon::MediGun,  // Renamed/Strange
        35 => Weapon::Kritzkrieg,
        411 => Weapon::QuickFix,
        663 => Weapon::MediGun,  // Festive
        796 => Weapon::MediGun,  // Silver Botkiller Medi Gun Mk.I
        805 => Weapon::MediGun,  // Gold Botkiller Medi Gun Mk.I
        885 => Weapon::MediGun,  // Rust Botkiller Medi Gun Mk.I
        894 => Weapon::MediGun,  // Blood Botkiller Medi Gun Mk.I
        903 => Weapon::MediGun,  // Carbonado Botkiller Medi Gun Mk.I
        912 => Weapon::MediGun,  // Diamond Botkiller Medi Gun Mk.I
        961 => Weapon::MediGun,  // Silver Botkiller Medi Gun Mk.II
        970 => Weapon::MediGun,  // Gold Botkiller Medi Gun Mk.II
        998 => Weapon::Vaccinator,
        15008 => Weapon::MediGun,  // Masked Mender
        15010 => Weapon::MediGun,  // Wrapped Reviver
        15025 => Weapon::MediGun,  // Reclaimed Reanimator
        15039 => Weapon::MediGun,  // Civil Servant
        15050 => Weapon::MediGun,  // Spark of Life
        15078 => Weapon::MediGun,  // Wildwood
        15097 => Weapon::MediGun,  // Flower Power
        15120 => Weapon::MediGun,  // Coffin Nail (this one is incorrectly listed in the wiki as 15123)
        15121 => Weapon::MediGun,  // Dressed To Kill
        15122 => Weapon::MediGun,  // High Roller's
        15145 => Weapon::MediGun,  // Blitzkrieg
        15146 => Weapon::MediGun,  // Corsair

        8 => Weapon::Bonesaw,
        198 => Weapon::Bonesaw,  // Renamed/Strange
        37 => Weapon::Ubersaw,
        173 => Weapon::VitaSaw,
        304 => Weapon::Amputator,
        413 => Weapon::SolemnVow,
        1003 => Weapon::Ubersaw,  // Festive
        1143 => Weapon::Bonesaw,  // Festive

        14 => Weapon::SniperRifle,
        201 => Weapon::SniperRifle,  // Renamed/Strange
        56 => Weapon::Huntsman,
        230 => Weapon::SydneySleeper,
        402 => Weapon::BazaarBargain,
        526 => Weapon::Machina,
        664 => Weapon::SniperRifle,  // Festive
        752 => Weapon::HitmansHeatmaker,
        792 => Weapon::SniperRifle,  // Silver Botkiller Sniper Rifle Mk.I
        801 => Weapon::SniperRifle,  // Gold Botkiller Sniper Rifle Mk.I
        851 => Weapon::AWPerHand,
        881 => Weapon::SniperRifle,  // Rust Botkiller Sniper Rifle Mk.I
        890 => Weapon::SniperRifle,  // Blood Botkiller Sniper Rifle Mk.I
        899 => Weapon::SniperRifle,  // Carbonado Botkiller Sniper Rifle Mk.I
        908 => Weapon::SniperRifle,  // Diamond Botkiller Sniper Rifle Mk.I
        957 => Weapon::SniperRifle,  // Silver Botkiller Sniper Rifle Mk.II
        966 => Weapon::SniperRifle,  // Gold Botkiller Sniper Rifle Mk.II
        1005 => Weapon::Huntsman,  // Festive
        1092 => Weapon::FortifiedCompound,
        1098 => Weapon::Classic,
        15000 => Weapon::SniperRifle,  // Night Owl
        15007 => Weapon::SniperRifle,  // Purple Range
        15019 => Weapon::SniperRifle,  // Lumber From Down Under
        15023 => Weapon::SniperRifle,  // Shot in the Dark
        15033 => Weapon::SniperRifle,  // Bogtrotter
        15059 => Weapon::SniperRifle,  // Thunderbolt
        15070 => Weapon::SniperRifle,  // Pumpkin Patch
        15071 => Weapon::SniperRifle,  // Boneyard
        15072 => Weapon::SniperRifle,  // Wildwood
        15111 => Weapon::SniperRifle,  // Balloonicorn
        15112 => Weapon::SniperRifle,  // Rainbow
        15135 => Weapon::SniperRifle,  // Coffin Nail
        15136 => Weapon::SniperRifle,  // Dressed to Kill
        15154 => Weapon::SniperRifle,  // Airwolf
        30665 => Weapon::ShootingStar,  // Shooting Star

        16 => Weapon::SMG,
        203 => Weapon::SMG,  // Renamed/Strange
        57 => Weapon::Razorback,
        58 => Weapon::Jarate,
        231 => Weapon::DarwinsDangerShield,
        642 => Weapon::CozyCamper,
        751 => Weapon::CleanersCarbine,
        1083 => Weapon::Jarate,  // Festive
        1105 => Weapon::SelfAwareBeautyMark,
        1149 => Weapon::SMG,  // Festive
        15001 => Weapon::SMG,  // Woodsy Widowmaker
        15022 => Weapon::SMG,  // Plaid Potshotter
        15032 => Weapon::SMG,  // Treadplate Tormenter
        15037 => Weapon::SMG,  // Team Sprayer
        15058 => Weapon::SMG,  // Low Profile
        15076 => Weapon::SMG,  // Wildwood
        15110 => Weapon::SMG,  // Blue Mew
        15134 => Weapon::SMG,  // High Roller's
        15153 => Weapon::SMG,  // Blitzkrieg

        3 => Weapon::Kukri,
        193 => Weapon::Kukri,  // Renamed/Strange
        171 => Weapon::TribalmansShiv,
        232 => Weapon::Bushwacka,
        401 => Weapon::Shahanshah,

        24 => Weapon::Revolver,
        210 => Weapon::Revolver,  // Renamed/Strange
        61 => Weapon::Ambassador,
        161 => Weapon::BigKill,
        224 => Weapon::LEtranger,
        460 => Weapon::Enforcer,
        525 => Weapon::Diamondback,
        1006 => Weapon::Ambassador,  // Festive
        1142 => Weapon::Revolver,  // Festive
        15011 => Weapon::Revolver,  // Psychedelic Slugger
        15027 => Weapon::Revolver,  // Old Country
        15042 => Weapon::Revolver,  // Mayor
        15051 => Weapon::Revolver,  // Dead Reckoner
        15062 => Weapon::Revolver,  // Boneyard
        15063 => Weapon::Revolver,  // Wildwood
        15064 => Weapon::Revolver,  // Macabre Web
        15103 => Weapon::Revolver,  // Flower Power
        15127 => Weapon::Revolver,  // Coffin Nail (this one is incorrectly listed in the wiki as 15129)
        15128 => Weapon::Revolver,  // Top Shelf
        15149 => Weapon::Revolver,  // Blitzkrieg

        735 => Weapon::Sapper,
        736 => Weapon::Sapper,  // Renamed/Strange
        810 => Weapon::RedTapeRecorder,
        831 => Weapon::RedTapeRecorder,  // Genuine
        933 => Weapon::ApSap,  // Genuine
        1080 => Weapon::Sapper,  // Festive
        1102 => Weapon::SnackAttack,

        4 => Weapon::Knife,
        194 => Weapon::Knife,  // Renamed/Strange
        225 => Weapon::YourEternalReward,
        356 => Weapon::ConniversKunai,
        461 => Weapon::BigEarner,
        574 => Weapon::WangaPrick,
        638 => Weapon::SharpDresser,
        649 => Weapon::Spycicle,
        665 => Weapon::Knife,  // Festive
        727 => Weapon::BlackRose,
        794 => Weapon::Knife,  // Silver Botkiller Knife Mk.I
        803 => Weapon::Knife,  // Gold Botkiller Knife Mk.I
        883 => Weapon::Knife,  // Rust Botkiller Knife Mk.I
        892 => Weapon::Knife,  // Blood Botkiller Knife Mk.I
        901 => Weapon::Knife,  // Carbonado Botkiller Knife Mk.I
        910 => Weapon::Knife,  // Diamond Botkiller Knife Mk.I
        959 => Weapon::Knife,  // Silver Botkiller Knife Mk.II
        968 => Weapon::Knife,  // Gold Botkiller Knife Mk.II
        15080 => Weapon::Knife,  // Boneyard (this one is incorrectly listed in the wiki as 15062)
        15094 => Weapon::Knife,  // Blue Mew
        15095 => Weapon::Knife,  // Brain Candy
        15096 => Weapon::Knife,  // Stabbed to Hell
        15118 => Weapon::Knife,  // Dressed to Kill
        15119 => Weapon::Knife,  // Top Shelf
        15143 => Weapon::Knife,  // Blitzkrieg
        15144 => Weapon::Knife,  // Airwolf

        27 => Weapon::DisguiseKitPDA,

        30 => Weapon::InvisWatch,
        212 => Weapon::InvisWatch,  // Renamed/Strange
        59 => Weapon::DeadRinger,
        60 => Weapon::CloakAndDagger,
        297 => Weapon::EnthusiastsTimepiece,
        947 => Weapon::Quackenbirdt,

        _ => Weapon::Unknown,
    }
}

} // verus!
