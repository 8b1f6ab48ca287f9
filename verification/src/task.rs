//! The task bridge: the host's catalogue of scheduler phases and the
//! owning handle for one registered callback.
//!
//! The host invokes a registered callback once per scheduling cycle, on its
//! own thread, under the chosen phase, until the callback is explicitly
//! freed. The dispatch table that satisfies the host's expected shape, and
//! the registration and free entry points (both resolved from patterns),
//! are process glue; what is modelled here is the handle's lifecycle: one
//! registration, exactly one free, and no use after the free.
use vstd::prelude::*;

verus! {

/// The host's fixed catalogue of scheduler phases, in the host's own order;
/// a phase's numeric id is its position in this catalogue.
#[derive(Clone, Copy, Debug, PartialEq, Eq, Structural)]
#[allow(non_camel_case_types)]
pub enum CSTaskGroupIndex {
    FrameBegin,
    SteamThread0,
    SteamThread1,
    SteamThread2,
    SteamThread3,
    SteamThread4,
    SteamThread5,
    SystemStep,
    ResStep,
    PadStep,
    GameFlowStep,
    EndShiftWorldPosition,
    GameMan,
    TaskLineIdx_Sys,
    TaskLineIdx_Test,
    TaskLineIdx_NetworkFlowStep,
    TaskLineIdx_InGame_InGameStep,
    TaskLineIdx_InGame_InGameStayStep,
    MovieStep,
    RemoStep,
    TaskLineIdx_InGame_MoveMapStep,
    FieldArea_EndWorldAiManager,
    EmkSystem_Pre,
    EmkSystem_ConditionStatus,
    EmkSystem_Post,
    EventMan,
    FlverResDelayDelectiionBegin,
    TaskLineIdx_InGame_FieldAreaStep,
    TaskLineIdx_InGame_TestNetStep,
    TaskLineIdx_InGame_InGameMenuStep,
    TaskLineIdx_InGame_TitleMenuStep,
    TaskLineIdx_InGame_CommonMenuStep,
    TaskLineIdx_FrpgNet_Sys,
    TaskLineIdx_FrpgNet_Lobby,
    TaskLineIdx_FrpgNet_ConnectMan,
    TaskLineIdx_FrpgNet_Connect,
    TaskLineIdx_FrpgNet_Other,
    SfxMan,
    FaceGenMan,
    FrpgNetMan,
    NetworkUserManager,
    SessionManager,
    BlockList,
    LuaConsoleServer,
    RmiMan,
    ResMan,
    SfxDebugger,
    REMOTEMAN,
    Geom_WaitActivateFade,
    Geom_UpdateDraw,
    Grass_BatchUpdate,
    Grass_ResourceLoadKick,
    Grass_ResourceLoad,
    Grass_ResourceCleanup,
    WorldChrMan_Respawn,
    WorldChrMan_Prepare,
    ChrIns_CalcUpdateInfo_PerfBegin,
    ChrIns_CalcUpdateInfo,
    ChrIns_CalcUpdateInfo_PerfEnd,
    WorldChrMan_PrePhysics,
    WorldChrMan_CalcOmissionLevel_Begin,
    WorldChrMan_CalcOmissionLevel,
    WorldChrMan_CalcOmissionLevel_End,
    WorldChrMan_ConstructUpdateList,
    WorldChrMan_ChrNetwork,
    ChrIns_Prepare,
    ChrIns_NaviCache,
    ChrIns_AILogic_PerfBegin,
    ChrIns_AILogic,
    ChrIns_AILogic_PerfEnd,
    AI_SimulationStep,
    ChrIns_PreBehavior,
    ChrIns_PreBehaviorSafe,
    GeomModelInsCreatePartway_Begin,
    HavokBehavior,
    GeomModelInsCreatePartway_End,
    ChrIns_BehaviorSafe,
    ChrIns_PrePhysics_Begin,
    ChrIns_PrePhysics,
    ChrIns_PrePhysics_End,
    NetFlushSendData,
    ChrIns_PrePhysicsSafe,
    ChrIns_RagdollSafe,
    ChrIns_GarbageCollection,
    GeomModelInsCreate,
    AiBeginCollectGabage,
    WorldChrMan_Update_RideCheck,
    InGameDebugViewer,
    LocationStep,
    LocationUpdate_PrePhysics,
    LocationUpdate_PrePhysics_Parallel,
    LocationUpdate_PrePhysics_Post,
    LocationUpdate_PostCloth,
    LocationUpdate_PostCloth_Parallel,
    LocationUpdate_PostCloth_Post,
    LocationUpdate_DebugDraw,
    EventCondition_BonfireNearEnemyCheck,
    HavokWorldUpdate_Pre,
    RenderingSystemUpdate,
    HavokWorldUpdate_Post,
    ChrIns_PreCloth,
    ChrIns_PreClothSafe,
    HavokClothUpdate_Pre_AddRemoveRigidBody,
    HavokClothUpdate_Pre_ClothModelInsSafe,
    HavokClothUpdate_Pre_ClothModelIns,
    HavokClothUpdate_Pre_ClothManager,
    CameraStep,
    DrawParamUpdate,
    GetNPAuthCode,
    SoundStep,
    HavokClothUpdate_Post_ClothManager,
    HavokClothUpdate_Post_ClothModelIns,
    HavokClothVertexUpdateFinishWait,
    ChrIns_PostPhysics,
    ChrIns_PostPhysicsSafe,
    CSDistViewManager_Update,
    HavokAi_SilhouetteGeneratorHelper_Begin,
    WorldChrMan_PostPhysics,
    GameFlowInGame_MoveMap_PostPhysics_0,
    HavokAi_SilhouetteGeneratorHelper_End,
    DmgMan_Pre,
    DmgMan_ShapeCast,
    DmgMan_Post,
    GameFlowInGame_MoveMap_PostPhysics_1_Core0,
    GameFlowInGame_MoveMap_PostPhysics_1_Core1,
    GameFlowInGame_MoveMap_PostPhysics_1_Core2,
    MenuMan,
    WorldChrMan_Update_BackreadRequestPre,
    ChrIns_Update_BackreadRequest,
    WorldChrMan_Update_BackreadRequestPost,
    HavokAi_World,
    WorldAiManager_BeginUpdateFormation,
    WorldAiManager_EndUpdateFormation,
    GameFlowInGame_TestNet,
    GameFlowInGame_InGameMenu,
    GameFlowInGame_TitleMenu,
    GameFlowInGame_CommonMenu,
    GameFlowFrpgNet_Sys,
    GameFlowFrpgNet_Lobby,
    GameFlowFrpgNet_ConnectMan,
    GameFlowFrpgNet_Connect,
    GameFlowStep_Post,
    ScaleformStep,
    FlverResDelayDelectiionEnd,
    Draw_Pre,
    GraphicsStep,
    DebugDrawMemoryBar,
    DbgMenuStep,
    DbgRemoteStep,
    PlaylogSystemStep,
    ReviewMan,
    ReportSystemStep,
    DbgDispStep,
    DrawStep,
    DrawBegin,
    GameSceneDraw,
    AdhocDraw,
    DrawEnd,
    Draw_Post,
    SoundPlayLimitterUpdate,
    BeginShiftWorldPosition,
    FileStep,
    FileStepUpdate_Begin,
    FileStepUpdate_End,
    Flip,
    DelayDeleteStep,
    AiEndCollectGabage,
    RecordHeapStats,
    FrameEnd,
}

impl CSTaskGroupIndex {
    /// The numeric phase id the host's registration routine expects: the
    /// phase's position in the catalogue.
    pub open spec fn spec_code(self) -> u32 {
        match self {
            CSTaskGroupIndex::FrameBegin => 0,
            CSTaskGroupIndex::SteamThread0 => 1,
            CSTaskGroupIndex::SteamThread1 => 2,
            CSTaskGroupIndex::SteamThread2 => 3,
            CSTaskGroupIndex::SteamThread3 => 4,
            CSTaskGroupIndex::SteamThread4 => 5,
            CSTaskGroupIndex::SteamThread5 => 6,
            CSTaskGroupIndex::SystemStep => 7,
            CSTaskGroupIndex::ResStep => 8,
            CSTaskGroupIndex::PadStep => 9,
            CSTaskGroupIndex::GameFlowStep => 10,
            CSTaskGroupIndex::EndShiftWorldPosition => 11,
            CSTaskGroupIndex::GameMan => 12,
            CSTaskGroupIndex::TaskLineIdx_Sys => 13,
            CSTaskGroupIndex::TaskLineIdx_Test => 14,
            CSTaskGroupIndex::TaskLineIdx_NetworkFlowStep => 15,
            CSTaskGroupIndex::TaskLineIdx_InGame_InGameStep => 16,
            CSTaskGroupIndex::TaskLineIdx_InGame_InGameStayStep => 17,
            CSTaskGroupIndex::MovieStep => 18,
            CSTaskGroupIndex::RemoStep => 19,
            CSTaskGroupIndex::TaskLineIdx_InGame_MoveMapStep => 20,
            CSTaskGroupIndex::FieldArea_EndWorldAiManager => 21,
            CSTaskGroupIndex::EmkSystem_Pre => 22,
            CSTaskGroupIndex::EmkSystem_ConditionStatus => 23,
            CSTaskGroupIndex::EmkSystem_Post => 24,
            CSTaskGroupIndex::EventMan => 25,
            CSTaskGroupIndex::FlverResDelayDelectiionBegin => 26,
            CSTaskGroupIndex::TaskLineIdx_InGame_FieldAreaStep => 27,
            CSTaskGroupIndex::TaskLineIdx_InGame_TestNetStep => 28,
            CSTaskGroupIndex::TaskLineIdx_InGame_InGameMenuStep => 29,
            CSTaskGroupIndex::TaskLineIdx_InGame_TitleMenuStep => 30,
            CSTaskGroupIndex::TaskLineIdx_InGame_CommonMenuStep => 31,
            CSTaskGroupIndex::TaskLineIdx_FrpgNet_Sys => 32,
            CSTaskGroupIndex::TaskLineIdx_FrpgNet_Lobby => 33,
            CSTaskGroupIndex::TaskLineIdx_FrpgNet_ConnectMan => 34,
            CSTaskGroupIndex::TaskLineIdx_FrpgNet_Connect => 35,
            CSTaskGroupIndex::TaskLineIdx_FrpgNet_Other => 36,
            CSTaskGroupIndex::SfxMan => 37,
            CSTaskGroupIndex::FaceGenMan => 38,
            CSTaskGroupIndex::FrpgNetMan => 39,
            CSTaskGroupIndex::NetworkUserManager => 40,
            CSTaskGroupIndex::SessionManager => 41,
            CSTaskGroupIndex::BlockList => 42,
            CSTaskGroupIndex::LuaConsoleServer => 43,
            CSTaskGroupIndex::RmiMan => 44,
            CSTaskGroupIndex::ResMan => 45,
            CSTaskGroupIndex::SfxDebugger => 46,
            CSTaskGroupIndex::REMOTEMAN => 47,
            CSTaskGroupIndex::Geom_WaitActivateFade => 48,
            CSTaskGroupIndex::Geom_UpdateDraw => 49,
            CSTaskGroupIndex::Grass_BatchUpdate => 50,
            CSTaskGroupIndex::Grass_ResourceLoadKick => 51,
            CSTaskGroupIndex::Grass_ResourceLoad => 52,
            CSTaskGroupIndex::Grass_ResourceCleanup => 53,
            CSTaskGroupIndex::WorldChrMan_Respawn => 54,
            CSTaskGroupIndex::WorldChrMan_Prepare => 55,
            CSTaskGroupIndex::ChrIns_CalcUpdateInfo_PerfBegin => 56,
            CSTaskGroupIndex::ChrIns_CalcUpdateInfo => 57,
            CSTaskGroupIndex::ChrIns_CalcUpdateInfo_PerfEnd => 58,
            CSTaskGroupIndex::WorldChrMan_PrePhysics => 59,
            CSTaskGroupIndex::WorldChrMan_CalcOmissionLevel_Begin => 60,
            CSTaskGroupIndex::WorldChrMan_CalcOmissionLevel => 61,
            CSTaskGroupIndex::WorldChrMan_CalcOmissionLevel_End => 62,
            CSTaskGroupIndex::WorldChrMan_ConstructUpdateList => 63,
            CSTaskGroupIndex::WorldChrMan_ChrNetwork => 64,
            CSTaskGroupIndex::ChrIns_Prepare => 65,
            CSTaskGroupIndex::ChrIns_NaviCache => 66,
            CSTaskGroupIndex::ChrIns_AILogic_PerfBegin => 67,
            CSTaskGroupIndex::ChrIns_AILogic => 68,
            CSTaskGroupIndex::ChrIns_AILogic_PerfEnd => 69,
            CSTaskGroupIndex::AI_SimulationStep => 70,
            CSTaskGroupIndex::ChrIns_PreBehavior => 71,
            CSTaskGroupIndex::ChrIns_PreBehaviorSafe => 72,
            CSTaskGroupIndex::GeomModelInsCreatePartway_Begin => 73,
            CSTaskGroupIndex::HavokBehavior => 74,
            CSTaskGroupIndex::GeomModelInsCreatePartway_End => 75,
            CSTaskGroupIndex::ChrIns_BehaviorSafe => 76,
            CSTaskGroupIndex::ChrIns_PrePhysics_Begin => 77,
            CSTaskGroupIndex::ChrIns_PrePhysics => 78,
            CSTaskGroupIndex::ChrIns_PrePhysics_End => 79,
            CSTaskGroupIndex::NetFlushSendData => 80,
            CSTaskGroupIndex::ChrIns_PrePhysicsSafe => 81,
            CSTaskGroupIndex::ChrIns_RagdollSafe => 82,
            CSTaskGroupIndex::ChrIns_GarbageCollection => 83,
            CSTaskGroupIndex::GeomModelInsCreate => 84,
            CSTaskGroupIndex::AiBeginCollectGabage => 85,
            CSTaskGroupIndex::WorldChrMan_Update_RideCheck => 86,
            CSTaskGroupIndex::InGameDebugViewer => 87,
            CSTaskGroupIndex::LocationStep => 88,
            CSTaskGroupIndex::LocationUpdate_PrePhysics => 89,
            CSTaskGroupIndex::LocationUpdate_PrePhysics_Parallel => 90,
            CSTaskGroupIndex::LocationUpdate_PrePhysics_Post => 91,
            CSTaskGroupIndex::LocationUpdate_PostCloth => 92,
            CSTaskGroupIndex::LocationUpdate_PostCloth_Parallel => 93,
            CSTaskGroupIndex::LocationUpdate_PostCloth_Post => 94,
            CSTaskGroupIndex::LocationUpdate_DebugDraw => 95,
            CSTaskGroupIndex::EventCondition_BonfireNearEnemyCheck => 96,
            CSTaskGroupIndex::HavokWorldUpdate_Pre => 97,
            CSTaskGroupIndex::RenderingSystemUpdate => 98,
            CSTaskGroupIndex::HavokWorldUpdate_Post => 99,
            CSTaskGroupIndex::ChrIns_PreCloth => 100,
            CSTaskGroupIndex::ChrIns_PreClothSafe => 101,
            CSTaskGroupIndex::HavokClothUpdate_Pre_AddRemoveRigidBody => 102,
            CSTaskGroupIndex::HavokClothUpdate_Pre_ClothModelInsSafe => 103,
            CSTaskGroupIndex::HavokClothUpdate_Pre_ClothModelIns => 104,
            CSTaskGroupIndex::HavokClothUpdate_Pre_ClothManager => 105,
            CSTaskGroupIndex::CameraStep => 106,
            CSTaskGroupIndex::DrawParamUpdate => 107,
            CSTaskGroupIndex::GetNPAuthCode => 108,
            CSTaskGroupIndex::SoundStep => 109,
            CSTaskGroupIndex::HavokClothUpdate_Post_ClothManager => 110,
            CSTaskGroupIndex::HavokClothUpdate_Post_ClothModelIns => 111,
            CSTaskGroupIndex::HavokClothVertexUpdateFinishWait => 112,
            CSTaskGroupIndex::ChrIns_PostPhysics => 113,
            CSTaskGroupIndex::ChrIns_PostPhysicsSafe => 114,
            CSTaskGroupIndex::CSDistViewManager_Update => 115,
            CSTaskGroupIndex::HavokAi_SilhouetteGeneratorHelper_Begin => 116,
            CSTaskGroupIndex::WorldChrMan_PostPhysics => 117,
            CSTaskGroupIndex::GameFlowInGame_MoveMap_PostPhysics_0 => 118,
            CSTaskGroupIndex::HavokAi_SilhouetteGeneratorHelper_End => 119,
            CSTaskGroupIndex::DmgMan_Pre => 120,
            CSTaskGroupIndex::DmgMan_ShapeCast => 121,
            CSTaskGroupIndex::DmgMan_Post => 122,
            CSTaskGroupIndex::GameFlowInGame_MoveMap_PostPhysics_1_Core0 => 123,
            CSTaskGroupIndex::GameFlowInGame_MoveMap_PostPhysics_1_Core1 => 124,
            CSTaskGroupIndex::GameFlowInGame_MoveMap_PostPhysics_1_Core2 => 125,
            CSTaskGroupIndex::MenuMan => 126,
            CSTaskGroupIndex::WorldChrMan_Update_BackreadRequestPre => 127,
            CSTaskGroupIndex::ChrIns_Update_BackreadRequest => 128,
            CSTaskGroupIndex::WorldChrMan_Update_BackreadRequestPost => 129,
            CSTaskGroupIndex::HavokAi_World => 130,
            CSTaskGroupIndex::WorldAiManager_BeginUpdateFormation => 131,
            CSTaskGroupIndex::WorldAiManager_EndUpdateFormation => 132,
            CSTaskGroupIndex::GameFlowInGame_TestNet => 133,
            CSTaskGroupIndex::GameFlowInGame_InGameMenu => 134,
            CSTaskGroupIndex::GameFlowInGame_TitleMenu => 135,
            CSTaskGroupIndex::GameFlowInGame_CommonMenu => 136,
            CSTaskGroupIndex::GameFlowFrpgNet_Sys => 137,
            CSTaskGroupIndex::GameFlowFrpgNet_Lobby => 138,
            CSTaskGroupIndex::GameFlowFrpgNet_ConnectMan => 139,
            CSTaskGroupIndex::GameFlowFrpgNet_Connect => 140,
            CSTaskGroupIndex::GameFlowStep_Post => 141,
            CSTaskGroupIndex::ScaleformStep => 142,
            CSTaskGroupIndex::FlverResDelayDelectiionEnd => 143,
            CSTaskGroupIndex::Draw_Pre => 144,
            CSTaskGroupIndex::GraphicsStep => 145,
            CSTaskGroupIndex::DebugDrawMemoryBar => 146,
            CSTaskGroupIndex::DbgMenuStep => 147,
            CSTaskGroupIndex::DbgRemoteStep => 148,
            CSTaskGroupIndex::PlaylogSystemStep => 149,
            CSTaskGroupIndex::ReviewMan => 150,
            CSTaskGroupIndex::ReportSystemStep => 151,
            CSTaskGroupIndex::DbgDispStep => 152,
            CSTaskGroupIndex::DrawStep => 153,
            CSTaskGroupIndex::DrawBegin => 154,
            CSTaskGroupIndex::GameSceneDraw => 155,
            CSTaskGroupIndex::AdhocDraw => 156,
            CSTaskGroupIndex::DrawEnd => 157,
            CSTaskGroupIndex::Draw_Post => 158,
            CSTaskGroupIndex::SoundPlayLimitterUpdate => 159,
            CSTaskGroupIndex::BeginShiftWorldPosition => 160,
            CSTaskGroupIndex::FileStep => 161,
            CSTaskGroupIndex::FileStepUpdate_Begin => 162,
            CSTaskGroupIndex::FileStepUpdate_End => 163,
            CSTaskGroupIndex::Flip => 164,
            CSTaskGroupIndex::DelayDeleteStep => 165,
            CSTaskGroupIndex::AiEndCollectGabage => 166,
            CSTaskGroupIndex::RecordHeapStats => 167,
            CSTaskGroupIndex::FrameEnd => 168,
        }
    }

    /// Executable form of `spec_code`, for the glue that registers tasks.
    pub fn code(self) -> (r: u32)
        ensures
            r == self.spec_code(),
    {
        match self {
            CSTaskGroupIndex::FrameBegin => 0,
            CSTaskGroupIndex::SteamThread0 => 1,
            CSTaskGroupIndex::SteamThread1 => 2,
            CSTaskGroupIndex::SteamThread2 => 3,
            CSTaskGroupIndex::SteamThread3 => 4,
            CSTaskGroupIndex::SteamThread4 => 5,
            CSTaskGroupIndex::SteamThread5 => 6,
            CSTaskGroupIndex::SystemStep => 7,
            CSTaskGroupIndex::ResStep => 8,
            CSTaskGroupIndex::PadStep => 9,
            CSTaskGroupIndex::GameFlowStep => 10,
            CSTaskGroupIndex::EndShiftWorldPosition => 11,
            CSTaskGroupIndex::GameMan => 12,
            CSTaskGroupIndex::TaskLineIdx_Sys => 13,
            CSTaskGroupIndex::TaskLineIdx_Test => 14,
            CSTaskGroupIndex::TaskLineIdx_NetworkFlowStep => 15,
            CSTaskGroupIndex::TaskLineIdx_InGame_InGameStep => 16,
            CSTaskGroupIndex::TaskLineIdx_InGame_InGameStayStep => 17,
            CSTaskGroupIndex::MovieStep => 18,
            CSTaskGroupIndex::RemoStep => 19,
            CSTaskGroupIndex::TaskLineIdx_InGame_MoveMapStep => 20,
            CSTaskGroupIndex::FieldArea_EndWorldAiManager => 21,
            CSTaskGroupIndex::EmkSystem_Pre => 22,
            CSTaskGroupIndex::EmkSystem_ConditionStatus => 23,
            CSTaskGroupIndex::EmkSystem_Post => 24,
            CSTaskGroupIndex::EventMan => 25,
            CSTaskGroupIndex::FlverResDelayDelectiionBegin => 26,
            CSTaskGroupIndex::TaskLineIdx_InGame_FieldAreaStep => 27,
            CSTaskGroupIndex::TaskLineIdx_InGame_TestNetStep => 28,
            CSTaskGroupIndex::TaskLineIdx_InGame_InGameMenuStep => 29,
            CSTaskGroupIndex::TaskLineIdx_InGame_TitleMenuStep => 30,
            CSTaskGroupIndex::TaskLineIdx_InGame_CommonMenuStep => 31,
            CSTaskGroupIndex::TaskLineIdx_FrpgNet_Sys => 32,
            CSTaskGroupIndex::TaskLineIdx_FrpgNet_Lobby => 33,
            CSTaskGroupIndex::TaskLineIdx_FrpgNet_ConnectMan => 34,
            CSTaskGroupIndex::TaskLineIdx_FrpgNet_Connect => 35,
            CSTaskGroupIndex::TaskLineIdx_FrpgNet_Other => 36,
            CSTaskGroupIndex::SfxMan => 37,
            CSTaskGroupIndex::FaceGenMan => 38,
            CSTaskGroupIndex::FrpgNetMan => 39,
            CSTaskGroupIndex::NetworkUserManager => 40,
            CSTaskGroupIndex::SessionManager => 41,
            CSTaskGroupIndex::BlockList => 42,
            CSTaskGroupIndex::LuaConsoleServer => 43,
            CSTaskGroupIndex::RmiMan => 44,
            CSTaskGroupIndex::ResMan => 45,
            CSTaskGroupIndex::SfxDebugger => 46,
            CSTaskGroupIndex::REMOTEMAN => 47,
            CSTaskGroupIndex::Geom_WaitActivateFade => 48,
            CSTaskGroupIndex::Geom_UpdateDraw => 49,
            CSTaskGroupIndex::Grass_BatchUpdate => 50,
            CSTaskGroupIndex::Grass_ResourceLoadKick => 51,
            CSTaskGroupIndex::Grass_ResourceLoad => 52,
            CSTaskGroupIndex::Grass_ResourceCleanup => 53,
            CSTaskGroupIndex::WorldChrMan_Respawn => 54,
            CSTaskGroupIndex::WorldChrMan_Prepare => 55,
            CSTaskGroupIndex::ChrIns_CalcUpdateInfo_PerfBegin => 56,
            CSTaskGroupIndex::ChrIns_CalcUpdateInfo => 57,
            CSTaskGroupIndex::ChrIns_CalcUpdateInfo_PerfEnd => 58,
            CSTaskGroupIndex::WorldChrMan_PrePhysics => 59,
            CSTaskGroupIndex::WorldChrMan_CalcOmissionLevel_Begin => 60,
            CSTaskGroupIndex::WorldChrMan_CalcOmissionLevel => 61,
            CSTaskGroupIndex::WorldChrMan_CalcOmissionLevel_End => 62,
            CSTaskGroupIndex::WorldChrMan_ConstructUpdateList => 63,
            CSTaskGroupIndex::WorldChrMan_ChrNetwork => 64,
            CSTaskGroupIndex::ChrIns_Prepare => 65,
            CSTaskGroupIndex::ChrIns_NaviCache => 66,
            CSTaskGroupIndex::ChrIns_AILogic_PerfBegin => 67,
            CSTaskGroupIndex::ChrIns_AILogic => 68,
            CSTaskGroupIndex::ChrIns_AILogic_PerfEnd => 69,
            CSTaskGroupIndex::AI_SimulationStep => 70,
            CSTaskGroupIndex::ChrIns_PreBehavior => 71,
            CSTaskGroupIndex::ChrIns_PreBehaviorSafe => 72,
            CSTaskGroupIndex::GeomModelInsCreatePartway_Begin => 73,
            CSTaskGroupIndex::HavokBehavior => 74,
            CSTaskGroupIndex::GeomModelInsCreatePartway_End => 75,
            CSTaskGroupIndex::ChrIns_BehaviorSafe => 76,
            CSTaskGroupIndex::ChrIns_PrePhysics_Begin => 77,
            CSTaskGroupIndex::ChrIns_PrePhysics => 78,
            CSTaskGroupIndex::ChrIns_PrePhysics_End => 79,
            CSTaskGroupIndex::NetFlushSendData => 80,
            CSTaskGroupIndex::ChrIns_PrePhysicsSafe => 81,
            CSTaskGroupIndex::ChrIns_RagdollSafe => 82,
            CSTaskGroupIndex::ChrIns_GarbageCollection => 83,
            CSTaskGroupIndex::GeomModelInsCreate => 84,
            CSTaskGroupIndex::AiBeginCollectGabage => 85,
            CSTaskGroupIndex::WorldChrMan_Update_RideCheck => 86,
            CSTaskGroupIndex::InGameDebugViewer => 87,
            CSTaskGroupIndex::LocationStep => 88,
            CSTaskGroupIndex::LocationUpdate_PrePhysics => 89,
            CSTaskGroupIndex::LocationUpdate_PrePhysics_Parallel => 90,
            CSTaskGroupIndex::LocationUpdate_PrePhysics_Post => 91,
            CSTaskGroupIndex::LocationUpdate_PostCloth => 92,
            CSTaskGroupIndex::LocationUpdate_PostCloth_Parallel => 93,
            CSTaskGroupIndex::LocationUpdate_PostCloth_Post => 94,
            CSTaskGroupIndex::LocationUpdate_DebugDraw => 95,
            CSTaskGroupIndex::EventCondition_BonfireNearEnemyCheck => 96,
            CSTaskGroupIndex::HavokWorldUpdate_Pre => 97,
            CSTaskGroupIndex::RenderingSystemUpdate => 98,
            CSTaskGroupIndex::HavokWorldUpdate_Post => 99,
            CSTaskGroupIndex::ChrIns_PreCloth => 100,
            CSTaskGroupIndex::ChrIns_PreClothSafe => 101,
            CSTaskGroupIndex::HavokClothUpdate_Pre_AddRemoveRigidBody => 102,
            CSTaskGroupIndex::HavokClothUpdate_Pre_ClothModelInsSafe => 103,
            CSTaskGroupIndex::HavokClothUpdate_Pre_ClothModelIns => 104,
            CSTaskGroupIndex::HavokClothUpdate_Pre_ClothManager => 105,
            CSTaskGroupIndex::CameraStep => 106,
            CSTaskGroupIndex::DrawParamUpdate => 107,
            CSTaskGroupIndex::GetNPAuthCode => 108,
            CSTaskGroupIndex::SoundStep => 109,
            CSTaskGroupIndex::HavokClothUpdate_Post_ClothManager => 110,
            CSTaskGroupIndex::HavokClothUpdate_Post_ClothModelIns => 111,
            CSTaskGroupIndex::HavokClothVertexUpdateFinishWait => 112,
            CSTaskGroupIndex::ChrIns_PostPhysics => 113,
            CSTaskGroupIndex::ChrIns_PostPhysicsSafe => 114,
            CSTaskGroupIndex::CSDistViewManager_Update => 115,
            CSTaskGroupIndex::HavokAi_SilhouetteGeneratorHelper_Begin => 116,
            CSTaskGroupIndex::WorldChrMan_PostPhysics => 117,
            CSTaskGroupIndex::GameFlowInGame_MoveMap_PostPhysics_0 => 118,
            CSTaskGroupIndex::HavokAi_SilhouetteGeneratorHelper_End => 119,
            CSTaskGroupIndex::DmgMan_Pre => 120,
            CSTaskGroupIndex::DmgMan_ShapeCast => 121,
            CSTaskGroupIndex::DmgMan_Post => 122,
            CSTaskGroupIndex::GameFlowInGame_MoveMap_PostPhysics_1_Core0 => 123,
            CSTaskGroupIndex::GameFlowInGame_MoveMap_PostPhysics_1_Core1 => 124,
            CSTaskGroupIndex::GameFlowInGame_MoveMap_PostPhysics_1_Core2 => 125,
            CSTaskGroupIndex::MenuMan => 126,
            CSTaskGroupIndex::WorldChrMan_Update_BackreadRequestPre => 127,
            CSTaskGroupIndex::ChrIns_Update_BackreadRequest => 128,
            CSTaskGroupIndex::WorldChrMan_Update_BackreadRequestPost => 129,
            CSTaskGroupIndex::HavokAi_World => 130,
            CSTaskGroupIndex::WorldAiManager_BeginUpdateFormation => 131,
            CSTaskGroupIndex::WorldAiManager_EndUpdateFormation => 132,
            CSTaskGroupIndex::GameFlowInGame_TestNet => 133,
            CSTaskGroupIndex::GameFlowInGame_InGameMenu => 134,
            CSTaskGroupIndex::GameFlowInGame_TitleMenu => 135,
            CSTaskGroupIndex::GameFlowInGame_CommonMenu => 136,
            CSTaskGroupIndex::GameFlowFrpgNet_Sys => 137,
            CSTaskGroupIndex::GameFlowFrpgNet_Lobby => 138,
            CSTaskGroupIndex::GameFlowFrpgNet_ConnectMan => 139,
            CSTaskGroupIndex::GameFlowFrpgNet_Connect => 140,
            CSTaskGroupIndex::GameFlowStep_Post => 141,
            CSTaskGroupIndex::ScaleformStep => 142,
            CSTaskGroupIndex::FlverResDelayDelectiionEnd => 143,
            CSTaskGroupIndex::Draw_Pre => 144,
            CSTaskGroupIndex::GraphicsStep => 145,
            CSTaskGroupIndex::DebugDrawMemoryBar => 146,
            CSTaskGroupIndex::DbgMenuStep => 147,
            CSTaskGroupIndex::DbgRemoteStep => 148,
            CSTaskGroupIndex::PlaylogSystemStep => 149,
            CSTaskGroupIndex::ReviewMan => 150,
            CSTaskGroupIndex::ReportSystemStep => 151,
            CSTaskGroupIndex::DbgDispStep => 152,
            CSTaskGroupIndex::DrawStep => 153,
            CSTaskGroupIndex::DrawBegin => 154,
            CSTaskGroupIndex::GameSceneDraw => 155,
            CSTaskGroupIndex::AdhocDraw => 156,
            CSTaskGroupIndex::DrawEnd => 157,
            CSTaskGroupIndex::Draw_Post => 158,
            CSTaskGroupIndex::SoundPlayLimitterUpdate => 159,
            CSTaskGroupIndex::BeginShiftWorldPosition => 160,
            CSTaskGroupIndex::FileStep => 161,
            CSTaskGroupIndex::FileStepUpdate_Begin => 162,
            CSTaskGroupIndex::FileStepUpdate_End => 163,
            CSTaskGroupIndex::Flip => 164,
            CSTaskGroupIndex::DelayDeleteStep => 165,
            CSTaskGroupIndex::AiEndCollectGabage => 166,
            CSTaskGroupIndex::RecordHeapStats => 167,
            CSTaskGroupIndex::FrameEnd => 168,
        }
    }
}

/// The owning handle of one registered callback: while it is active the
/// host keeps invoking the callback each cycle under `group`; releasing it
/// frees the registration, exactly once.
pub struct TaskProxy {
    active: bool,
    group: CSTaskGroupIndex,
}

impl TaskProxy {
    /// Whether the registration is still held (not yet freed).
    pub closed spec fn is_active(self) -> bool {
        self.active
    }

    /// The phase the callback was registered under.
    pub closed spec fn group(self) -> CSTaskGroupIndex {
        self.group
    }

    /// Tells the host to stop invoking the callback and frees the
    /// registration. Returns whether this call performed the free: true
    /// exactly once per handle, so the dispatch table is never freed twice
    /// and never freed while still registered.
    pub fn release(&mut self) -> (did_free: bool)
        ensures
            !final(self).is_active(),
            final(self).group() == old(self).group(),
            did_free == old(self).is_active(),
    {
        let was = self.active;
        self.active = false;
        was
    }
}

/// Registers a per-cycle callback under the given phase and hands back the
/// owning handle. The handle is move-only and single-owner: dropping or
/// releasing it must be the only way the registration ends.
pub fn run_task(task_group: CSTaskGroupIndex) -> (r: TaskProxy)
    ensures
        r.is_active(),
        r.group() == task_group,
{
    TaskProxy { active: true, group: task_group }
}

} // verus!
