//! Objects of the simulated design: handles, the properties that can be read
//! from them, and the enumeration of an object's children.

use crate::native::{Reply, Request};
use crate::result::Error;
use crate::startup::StartupState;
use crate::text::{is_text_of, text_of};
use vstd::prelude::*;

verus! {

/// A handle to one object of the simulator. It owns the native handle, which
/// is never null. The handle is never looked into: it is only stored and
/// passed back to the simulator.
///
/// Two handles may stand for the same object without holding the same
/// address, so there is no `==` on handles: ask the simulator, with
/// [`ObjectHandle::vpi_compare_objects_request`].
///
/// Dropping a handle releases nothing. The simulator reclaims its handles
/// itself.
#[derive(Debug)]
pub struct ObjectHandle {
    raw: usize,
}

/// The children of an object that have a given type, one after another.
///
/// It keeps the cursor that the simulator handed out when the enumeration
/// began, and passes that same cursor to every scan. The handles it yields are
/// for the caller alone. Once the cursor is gone the enumeration is over for
/// good; to enumerate again, begin a new one.
#[derive(Debug)]
pub struct ObjectChildrenIterator {
    iterator_handle: Option<ObjectHandle>,
}

/// The categories of objects. Each has its own integer in the simulator.
#[derive(Clone, Copy, Debug, PartialEq, Eq, Hash, Structural)]
#[non_exhaustive]
pub enum ObjectType {
    Always,
    AssignStmt,
    Assignment,
    Begin,
    Case,
    CaseItem,
    Constant,
    ContAssign,
    Deassign,
    DefParam,
    DelayControl,
    Disable,
    EventControl,
    EventStmt,
    For,
    Force,
    Forever,
    Fork,
    FuncCall,
    Function,
    Gate,
    If,
    IfElse,
    Initial,
    IntegerVar,
    InterModPath,
    Iterator,
    IODecl,
    Memory,
    MemoryWord,
    ModPath,
    Module,
    NamedBegin,
    NamedEvent,
    NamedFork,
    Net,
    NetBit,
    NullStmt,
    Operation,
    ParamAssign,
    Parameter,
    PartSelect,
    PathTerm,
    Port,
    PortBit,
    PrimTerm,
    RealVar,
    Reg,
    RegBit,
    Release,
    Repeat,
    RepeatControl,
    SchedEvent,
    SpecParam,
    Switch,
    SysFuncCall,
    SysTaskCall,
    TableEntry,
    Task,
    TaskCall,
    Tchk,
    TchkTerm,
    TimeVar,
    TimeQueue,
    Udp,
    UdpDefn,
    UserSystf,
    VarSelect,
    Wait,
    While,
    Attribute,
    BitSelect,
    Callback,
    DelayTerm,
    DelayDevice,
    Frame,
    GateArray,
    ModuleArray,
    PrimitiveArray,
    NetArray,
    Range,
    RegArray,
    SwitchArray,
    UdpArray,
    ContAssignBit,
    NamedEventArray,
    IndexedPartSelect,
    GenScopeArray,
    GenScope,
    GenVar,
}
/// The names that the simulator's interface gives to properties of objects
/// and to the values that some of those properties take.
///
/// The variants for which [`ObjectProperty::is_identifier`] holds name a
/// property; no two of them share an integer. The other variants name a value
/// of one of those properties, or are a second name of a property, and reuse
/// integers.
#[derive(Clone, Copy, Debug, PartialEq, Eq, Hash, Structural)]
#[non_exhaustive]
pub enum ObjectProperty {
    Undefined,
    Type,
    Name,
    FullName,
    Size,
    File,
    LineNo,
    TopModule,
    CellInstance,
    DefName,
    Protected,
    TimeUnit,
    TimePrecision,
    DefNetType,
    UnconnDrive,
    HighZ,
    Pull1,
    Pull0,
    DefFile,
    DefLineNo,
    DefDelayMode,
    DelayModeNone,
    DelayModePath,
    DelayModeDistrib,
    DelayModeUnit,
    DelayModeZero,
    DelayModeMTM,
    DefDecayTime,
    Scalar,
    Vector,
    ExplicitName,
    Direction,
    Input,
    Output,
    Inout,
    MixedIO,
    NoDirection,
    ConnByName,
    NetType,
    Wire,
    Wand,
    Wor,
    Tri,
    Tri0,
    Tri1,
    TriReg,
    TriAnd,
    TriOr,
    Supply1,
    Supply0,
    NoDefaultNet,
    Uwire,
    ExplicitScalared,
    ExplicitVectored,
    Expanded,
    ImplicitDecl,
    ChargeStrength,
    Array,
    PortIndex,
    TermIndex,
    Strength0,
    Strength1,
    PrimType,
    AndPrim,
    NandPrim,
    NorPrim,
    OrPrim,
    XorPrim,
    XnorPrim,
    BufPrim,
    NotPrim,
    Bufif0Prim,
    Bufif1Prim,
    Notif0Prim,
    Notif1Prim,
    NmosPrim,
    PmosPrim,
    CmosPrim,
    RnmosPrim,
    RpmosPrim,
    RcmosPrim,
    RtranPrim,
    Rtranif0Prim,
    Rtranif1Prim,
    TranPrim,
    Tranif0Prim,
    Tranif1Prim,
    PullupPrim,
    PulldownPrim,
    SeqPrim,
    CombPrim,
    Polarity,
    DataPolarity,
    Positive,
    Negative,
    Unknown,
    Edge,
    NoEdge,
    Edge01,
    Edge10,
    Edge0x,
    Edgex1,
    Edge1x,
    Edgex0,
    Posedge,
    Negedge,
    AnyEdge,
    PathType,
    PathFull,
    PathParallel,
    TchkType,
    Setup,
    Hold,
    Period,
    Width,
    Skew,
    Recovery,
    NoChange,
    SetupHold,
    Fullskew,
    Recrem,
    Removal,
    Timeskew,
    OpType,
    MinusOp,
    PlusOp,
    NotOp,
    BitNegOp,
    UnaryAndOp,
    UnaryNandOp,
    UnaryOrOp,
    UnaryNorOp,
    UnaryXorOp,
    UnaryXNorOp,
    SubOp,
    DivOp,
    ModOp,
    EqOp,
    NeqOp,
    CaseEqOp,
    CaseNeqOp,
    GtOp,
    GeOp,
    LtOp,
    LeOp,
    LShiftOp,
    RShiftOp,
    AddOp,
    MultOp,
    LogAndOp,
    LogOrOp,
    BitAndOp,
    BitOrOp,
    BitXorOp,
    BitXNorOp,
    ConditionOp,
    ConcatOp,
    MultiConcatOp,
    EventOrOp,
    NullOp,
    ListOp,
    MinTypMaxOp,
    PosedgeOp,
    NegedgeOp,
    ArithLShiftOp,
    ArithRShiftOp,
    PowerOp,
    ConstType,
    DecConst,
    RealConst,
    BinaryConst,
    OctConst,
    HexConst,
    StringConst,
    IntConst,
    TimeConst,
    Blocking,
    CaseType,
    CaseExact,
    CaseX,
    CaseZ,
    NetDeclAssign,
    FuncType,
    IntFunc,
    RealFunc,
    TimeFunc,
    SizedFunc,
    SizedSignedFunc,
    SysFuncType,
    SysFuncInt,
    SysFuncReal,
    SysFuncTime,
    SysFuncSized,
    UserDefn,
    Scheduled,
    Active,
    Automatic,
    Cell,
    Config,
    ConstantSelect,
    Decompile,
    DefAttribute,
    DelayType,
    ModPathDelay,
    InterModPathDelay,
    MIPDelay,
    IteratorType,
    Library,
    Offset,
    ResolvedNetType,
    SaveRestartID,
    SaveRestartLocation,
    Valid,
    ValidFalse,
    ValidTrue,
    Signed,
    LocalParam,
    ModPathHasIfNone,
    IndexedPartSelectType,
    PosIndexed,
    NegIndexed,
    IsMemory,
    IsProtected,
}
/// The value of a single bit.
#[derive(Clone, Copy, Debug, PartialEq, Eq, Hash, Structural)]
pub enum Scalar {
    Zero,
    One,
    X,
    Z,
}

/// The value of an object, in the representation that was asked for. A real
/// number is held by its bits.
#[derive(Clone, Debug, PartialEq, Eq)]
#[non_exhaustive]
pub enum Value {
    BinStr(Vec<u8>),
    OctStr(Vec<u8>),
    DecStr(Vec<u8>),
    HexStr(Vec<u8>),
    Scalar(Scalar),
    Integer(i32),
    Real(u64),
    String(Vec<u8>),
    Vector(Vec<Scalar>),
    Strength,
    Suppress,
    Time,
    ObjType,
}

/// The representations in which the value of an object can be asked for.
#[derive(Clone, Copy, Debug, PartialEq, Eq, Hash, Structural)]
#[non_exhaustive]
pub enum ValueKind {
    BinStr,
    OctStr,
    DecStr,
    HexStr,
    Scalar,
    Integer,
    Real,
    String,
    Vector,
    Strength,
    Suppress,
    Time,
    ObjType,
}

impl ObjectType {
    /// The simulator's integer for this type.
    pub open spec fn native_code(self) -> i32 {
        match self {
            ObjectType::Always => 1,
            ObjectType::AssignStmt => 2,
            ObjectType::Assignment => 3,
            ObjectType::Begin => 4,
            ObjectType::Case => 5,
            ObjectType::CaseItem => 6,
            ObjectType::Constant => 7,
            ObjectType::ContAssign => 8,
            ObjectType::Deassign => 9,
            ObjectType::DefParam => 10,
            ObjectType::DelayControl => 11,
            ObjectType::Disable => 12,
            ObjectType::EventControl => 13,
            ObjectType::EventStmt => 14,
            ObjectType::For => 15,
            ObjectType::Force => 16,
            ObjectType::Forever => 17,
            ObjectType::Fork => 18,
            ObjectType::FuncCall => 19,
            ObjectType::Function => 20,
            ObjectType::Gate => 21,
            ObjectType::If => 22,
            ObjectType::IfElse => 23,
            ObjectType::Initial => 24,
            ObjectType::IntegerVar => 25,
            ObjectType::InterModPath => 26,
            ObjectType::Iterator => 27,
            ObjectType::IODecl => 28,
            ObjectType::Memory => 29,
            ObjectType::MemoryWord => 30,
            ObjectType::ModPath => 31,
            ObjectType::Module => 32,
            ObjectType::NamedBegin => 33,
            ObjectType::NamedEvent => 34,
            ObjectType::NamedFork => 35,
            ObjectType::Net => 36,
            ObjectType::NetBit => 37,
            ObjectType::NullStmt => 38,
            ObjectType::Operation => 39,
            ObjectType::ParamAssign => 40,
            ObjectType::Parameter => 41,
            ObjectType::PartSelect => 42,
            ObjectType::PathTerm => 43,
            ObjectType::Port => 44,
            ObjectType::PortBit => 45,
            ObjectType::PrimTerm => 46,
            ObjectType::RealVar => 47,
            ObjectType::Reg => 48,
            ObjectType::RegBit => 49,
            ObjectType::Release => 50,
            ObjectType::Repeat => 51,
            ObjectType::RepeatControl => 52,
            ObjectType::SchedEvent => 53,
            ObjectType::SpecParam => 54,
            ObjectType::Switch => 55,
            ObjectType::SysFuncCall => 56,
            ObjectType::SysTaskCall => 57,
            ObjectType::TableEntry => 58,
            ObjectType::Task => 59,
            ObjectType::TaskCall => 60,
            ObjectType::Tchk => 61,
            ObjectType::TchkTerm => 62,
            ObjectType::TimeVar => 63,
            ObjectType::TimeQueue => 64,
            ObjectType::Udp => 65,
            ObjectType::UdpDefn => 66,
            ObjectType::UserSystf => 67,
            ObjectType::VarSelect => 68,
            ObjectType::Wait => 69,
            ObjectType::While => 70,
            ObjectType::Attribute => 105,
            ObjectType::BitSelect => 106,
            ObjectType::Callback => 107,
            ObjectType::DelayTerm => 108,
            ObjectType::DelayDevice => 109,
            ObjectType::Frame => 110,
            ObjectType::GateArray => 111,
            ObjectType::ModuleArray => 112,
            ObjectType::PrimitiveArray => 113,
            ObjectType::NetArray => 114,
            ObjectType::Range => 115,
            ObjectType::RegArray => 116,
            ObjectType::SwitchArray => 117,
            ObjectType::UdpArray => 118,
            ObjectType::ContAssignBit => 128,
            ObjectType::NamedEventArray => 129,
            ObjectType::IndexedPartSelect => 130,
            ObjectType::GenScopeArray => 133,
            ObjectType::GenScope => 134,
            ObjectType::GenVar => 135,
}
    }

    /// The type that the simulator's integer `value` stands for, if any: the
    /// one whose integer it is.
    pub open spec fn decode(value: i32) -> Option<ObjectType> {
        if exists|t: ObjectType| t.native_code() == value {
            Some(choose|t: ObjectType| t.native_code() == value)
        } else {
            None
        }
    }

    pub fn code(self) -> (r: i32)
        ensures
            r == self.native_code(),
    {
        match self {
            ObjectType::Always => 1,
            ObjectType::AssignStmt => 2,
            ObjectType::Assignment => 3,
            ObjectType::Begin => 4,
            ObjectType::Case => 5,
            ObjectType::CaseItem => 6,
            ObjectType::Constant => 7,
            ObjectType::ContAssign => 8,
            ObjectType::Deassign => 9,
            ObjectType::DefParam => 10,
            ObjectType::DelayControl => 11,
            ObjectType::Disable => 12,
            ObjectType::EventControl => 13,
            ObjectType::EventStmt => 14,
            ObjectType::For => 15,
            ObjectType::Force => 16,
            ObjectType::Forever => 17,
            ObjectType::Fork => 18,
            ObjectType::FuncCall => 19,
            ObjectType::Function => 20,
            ObjectType::Gate => 21,
            ObjectType::If => 22,
            ObjectType::IfElse => 23,
            ObjectType::Initial => 24,
            ObjectType::IntegerVar => 25,
            ObjectType::InterModPath => 26,
            ObjectType::Iterator => 27,
            ObjectType::IODecl => 28,
            ObjectType::Memory => 29,
            ObjectType::MemoryWord => 30,
            ObjectType::ModPath => 31,
            ObjectType::Module => 32,
            ObjectType::NamedBegin => 33,
            ObjectType::NamedEvent => 34,
            ObjectType::NamedFork => 35,
            ObjectType::Net => 36,
            ObjectType::NetBit => 37,
            ObjectType::NullStmt => 38,
            ObjectType::Operation => 39,
            ObjectType::ParamAssign => 40,
            ObjectType::Parameter => 41,
            ObjectType::PartSelect => 42,
            ObjectType::PathTerm => 43,
            ObjectType::Port => 44,
            ObjectType::PortBit => 45,
            ObjectType::PrimTerm => 46,
            ObjectType::RealVar => 47,
            ObjectType::Reg => 48,
            ObjectType::RegBit => 49,
            ObjectType::Release => 50,
            ObjectType::Repeat => 51,
            ObjectType::RepeatControl => 52,
            ObjectType::SchedEvent => 53,
            ObjectType::SpecParam => 54,
            ObjectType::Switch => 55,
            ObjectType::SysFuncCall => 56,
            ObjectType::SysTaskCall => 57,
            ObjectType::TableEntry => 58,
            ObjectType::Task => 59,
            ObjectType::TaskCall => 60,
            ObjectType::Tchk => 61,
            ObjectType::TchkTerm => 62,
            ObjectType::TimeVar => 63,
            ObjectType::TimeQueue => 64,
            ObjectType::Udp => 65,
            ObjectType::UdpDefn => 66,
            ObjectType::UserSystf => 67,
            ObjectType::VarSelect => 68,
            ObjectType::Wait => 69,
            ObjectType::While => 70,
            ObjectType::Attribute => 105,
            ObjectType::BitSelect => 106,
            ObjectType::Callback => 107,
            ObjectType::DelayTerm => 108,
            ObjectType::DelayDevice => 109,
            ObjectType::Frame => 110,
            ObjectType::GateArray => 111,
            ObjectType::ModuleArray => 112,
            ObjectType::PrimitiveArray => 113,
            ObjectType::NetArray => 114,
            ObjectType::Range => 115,
            ObjectType::RegArray => 116,
            ObjectType::SwitchArray => 117,
            ObjectType::UdpArray => 118,
            ObjectType::ContAssignBit => 128,
            ObjectType::NamedEventArray => 129,
            ObjectType::IndexedPartSelect => 130,
            ObjectType::GenScopeArray => 133,
            ObjectType::GenScope => 134,
            ObjectType::GenVar => 135,
}
    }

    /// No two types share an integer.
    pub proof fn lemma_code_injective(a: ObjectType, b: ObjectType)
        ensures
            a.native_code() == b.native_code() ==> a == b,
    {
    }

    /// Decoding undoes encoding.
    pub proof fn lemma_code_roundtrip(t: ObjectType)
        ensures
            ObjectType::decode(t.native_code()) == Some(t),
    {
        let back = choose|u: ObjectType| u.native_code() == t.native_code();
        Self::lemma_code_injective(back, t);
    }

    /// Encoding undoes decoding.
    pub proof fn lemma_decode_sound(value: i32)
        ensures
            ObjectType::decode(value) matches Some(t) ==> t.native_code() == value,
    {
    }
}

/// Decodes the simulator's integer for a type. An integer that stands for no
/// type is an [`Error::EnumConversion`], never some default type.
impl TryFrom<i32> for ObjectType {
    type Error = Box<Error>;

    fn try_from(value: i32) -> (r: Result<Self, Box<Error>>) {
        let found = match value {
            1 => Ok(ObjectType::Always),
            2 => Ok(ObjectType::AssignStmt),
            3 => Ok(ObjectType::Assignment),
            4 => Ok(ObjectType::Begin),
            5 => Ok(ObjectType::Case),
            6 => Ok(ObjectType::CaseItem),
            7 => Ok(ObjectType::Constant),
            8 => Ok(ObjectType::ContAssign),
            9 => Ok(ObjectType::Deassign),
            10 => Ok(ObjectType::DefParam),
            11 => Ok(ObjectType::DelayControl),
            12 => Ok(ObjectType::Disable),
            13 => Ok(ObjectType::EventControl),
            14 => Ok(ObjectType::EventStmt),
            15 => Ok(ObjectType::For),
            16 => Ok(ObjectType::Force),
            17 => Ok(ObjectType::Forever),
            18 => Ok(ObjectType::Fork),
            19 => Ok(ObjectType::FuncCall),
            20 => Ok(ObjectType::Function),
            21 => Ok(ObjectType::Gate),
            22 => Ok(ObjectType::If),
            23 => Ok(ObjectType::IfElse),
            24 => Ok(ObjectType::Initial),
            25 => Ok(ObjectType::IntegerVar),
            26 => Ok(ObjectType::InterModPath),
            27 => Ok(ObjectType::Iterator),
            28 => Ok(ObjectType::IODecl),
            29 => Ok(ObjectType::Memory),
            30 => Ok(ObjectType::MemoryWord),
            31 => Ok(ObjectType::ModPath),
            32 => Ok(ObjectType::Module),
            33 => Ok(ObjectType::NamedBegin),
            34 => Ok(ObjectType::NamedEvent),
            35 => Ok(ObjectType::NamedFork),
            36 => Ok(ObjectType::Net),
            37 => Ok(ObjectType::NetBit),
            38 => Ok(ObjectType::NullStmt),
            39 => Ok(ObjectType::Operation),
            40 => Ok(ObjectType::ParamAssign),
            41 => Ok(ObjectType::Parameter),
            42 => Ok(ObjectType::PartSelect),
            43 => Ok(ObjectType::PathTerm),
            44 => Ok(ObjectType::Port),
            45 => Ok(ObjectType::PortBit),
            46 => Ok(ObjectType::PrimTerm),
            47 => Ok(ObjectType::RealVar),
            48 => Ok(ObjectType::Reg),
            49 => Ok(ObjectType::RegBit),
            50 => Ok(ObjectType::Release),
            51 => Ok(ObjectType::Repeat),
            52 => Ok(ObjectType::RepeatControl),
            53 => Ok(ObjectType::SchedEvent),
            54 => Ok(ObjectType::SpecParam),
            55 => Ok(ObjectType::Switch),
            56 => Ok(ObjectType::SysFuncCall),
            57 => Ok(ObjectType::SysTaskCall),
            58 => Ok(ObjectType::TableEntry),
            59 => Ok(ObjectType::Task),
            60 => Ok(ObjectType::TaskCall),
            61 => Ok(ObjectType::Tchk),
            62 => Ok(ObjectType::TchkTerm),
            63 => Ok(ObjectType::TimeVar),
            64 => Ok(ObjectType::TimeQueue),
            65 => Ok(ObjectType::Udp),
            66 => Ok(ObjectType::UdpDefn),
            67 => Ok(ObjectType::UserSystf),
            68 => Ok(ObjectType::VarSelect),
            69 => Ok(ObjectType::Wait),
            70 => Ok(ObjectType::While),
            105 => Ok(ObjectType::Attribute),
            106 => Ok(ObjectType::BitSelect),
            107 => Ok(ObjectType::Callback),
            108 => Ok(ObjectType::DelayTerm),
            109 => Ok(ObjectType::DelayDevice),
            110 => Ok(ObjectType::Frame),
            111 => Ok(ObjectType::GateArray),
            112 => Ok(ObjectType::ModuleArray),
            113 => Ok(ObjectType::PrimitiveArray),
            114 => Ok(ObjectType::NetArray),
            115 => Ok(ObjectType::Range),
            116 => Ok(ObjectType::RegArray),
            117 => Ok(ObjectType::SwitchArray),
            118 => Ok(ObjectType::UdpArray),
            128 => Ok(ObjectType::ContAssignBit),
            129 => Ok(ObjectType::NamedEventArray),
            130 => Ok(ObjectType::IndexedPartSelect),
            133 => Ok(ObjectType::GenScopeArray),
            134 => Ok(ObjectType::GenScope),
            135 => Ok(ObjectType::GenVar),
_ => Err(Box::new(Error::EnumConversion { from_int: value, to_enum: "ObjectType" })),
        };
        proof {
            match found {
                Ok(t) => {
                    Self::lemma_code_roundtrip(t);
                },
                Err(_) => {
                    assert forall|t: ObjectType| t.native_code() != value by {
                        Self::lemma_code_roundtrip(t);
                    }
                },
            }
        }
        found
    }
}

impl vstd::std_specs::convert::TryFromSpecImpl<i32> for ObjectType {
    open spec fn obeys_try_from_spec() -> bool {
        true
    }

    open spec fn try_from_spec(value: i32) -> Result<Self, Box<Error>> {
        match ObjectType::decode(value) {
            Some(t) => Ok(t),
            None => Err(Box::new(Error::EnumConversion { from_int: value, to_enum: "ObjectType" })),
        }
    }
}

impl ObjectProperty {
    /// Whether this variant names a property of an object. The others name a
    /// value that a property can take, or are a second name of a property.
    pub open spec fn is_identifier(self) -> bool {
        match self {
            ObjectProperty::Undefined | ObjectProperty::Type | ObjectProperty::Name
            | ObjectProperty::FullName | ObjectProperty::Size | ObjectProperty::File
            | ObjectProperty::LineNo | ObjectProperty::TopModule | ObjectProperty::CellInstance
            | ObjectProperty::DefName | ObjectProperty::Protected | ObjectProperty::TimeUnit
            | ObjectProperty::TimePrecision | ObjectProperty::DefNetType
            | ObjectProperty::UnconnDrive | ObjectProperty::DefFile | ObjectProperty::DefLineNo
            | ObjectProperty::DefDelayMode | ObjectProperty::DefDecayTime
            | ObjectProperty::Scalar | ObjectProperty::Vector | ObjectProperty::ExplicitName
            | ObjectProperty::Direction | ObjectProperty::ConnByName | ObjectProperty::NetType
            | ObjectProperty::ExplicitScalared | ObjectProperty::ExplicitVectored
            | ObjectProperty::Expanded | ObjectProperty::ImplicitDecl
            | ObjectProperty::ChargeStrength | ObjectProperty::Array | ObjectProperty::PortIndex
            | ObjectProperty::TermIndex | ObjectProperty::Strength0 | ObjectProperty::Strength1
            | ObjectProperty::PrimType | ObjectProperty::Polarity | ObjectProperty::DataPolarity
            | ObjectProperty::Edge | ObjectProperty::PathType | ObjectProperty::TchkType
            | ObjectProperty::OpType | ObjectProperty::ConstType | ObjectProperty::Blocking
            | ObjectProperty::CaseType | ObjectProperty::NetDeclAssign | ObjectProperty::FuncType
            | ObjectProperty::UserDefn | ObjectProperty::Scheduled | ObjectProperty::Active
            | ObjectProperty::Automatic | ObjectProperty::Cell | ObjectProperty::Config
            | ObjectProperty::ConstantSelect | ObjectProperty::Decompile
            | ObjectProperty::DefAttribute | ObjectProperty::DelayType
            | ObjectProperty::IteratorType | ObjectProperty::Library | ObjectProperty::Offset
            | ObjectProperty::ResolvedNetType | ObjectProperty::SaveRestartID
            | ObjectProperty::SaveRestartLocation | ObjectProperty::Valid
            | ObjectProperty::Signed | ObjectProperty::LocalParam
            | ObjectProperty::ModPathHasIfNone | ObjectProperty::IndexedPartSelectType
            | ObjectProperty::IsMemory | ObjectProperty::IsProtected => true,
_ => false,
        }
    }

    /// The simulator's integer for this name.
    pub open spec fn native_code(self) -> i32 {
        match self {
            ObjectProperty::Undefined => -1i32,
            ObjectProperty::Type => 1,
            ObjectProperty::Name => 2,
            ObjectProperty::FullName => 3,
            ObjectProperty::Size => 4,
            ObjectProperty::File => 5,
            ObjectProperty::LineNo => 6,
            ObjectProperty::TopModule => 7,
            ObjectProperty::CellInstance => 8,
            ObjectProperty::DefName => 9,
            ObjectProperty::Protected => 10,
            ObjectProperty::TimeUnit => 11,
            ObjectProperty::TimePrecision => 12,
            ObjectProperty::DefNetType => 13,
            ObjectProperty::UnconnDrive => 14,
            ObjectProperty::HighZ => 1,
            ObjectProperty::Pull1 => 2,
            ObjectProperty::Pull0 => 3,
            ObjectProperty::DefFile => 15,
            ObjectProperty::DefLineNo => 16,
            ObjectProperty::DefDelayMode => 47,
            ObjectProperty::DelayModeNone => 1,
            ObjectProperty::DelayModePath => 2,
            ObjectProperty::DelayModeDistrib => 3,
            ObjectProperty::DelayModeUnit => 4,
            ObjectProperty::DelayModeZero => 5,
            ObjectProperty::DelayModeMTM => 6,
            ObjectProperty::DefDecayTime => 48,
            ObjectProperty::Scalar => 17,
            ObjectProperty::Vector => 18,
            ObjectProperty::ExplicitName => 19,
            ObjectProperty::Direction => 20,
            ObjectProperty::Input => 1,
            ObjectProperty::Output => 2,
            ObjectProperty::Inout => 3,
            ObjectProperty::MixedIO => 4,
            ObjectProperty::NoDirection => 5,
            ObjectProperty::ConnByName => 21,
            ObjectProperty::NetType => 22,
            ObjectProperty::Wire => 1,
            ObjectProperty::Wand => 2,
            ObjectProperty::Wor => 3,
            ObjectProperty::Tri => 4,
            ObjectProperty::Tri0 => 5,
            ObjectProperty::Tri1 => 6,
            ObjectProperty::TriReg => 7,
            ObjectProperty::TriAnd => 8,
            ObjectProperty::TriOr => 9,
            ObjectProperty::Supply1 => 10,
            ObjectProperty::Supply0 => 11,
            ObjectProperty::NoDefaultNet => 12,
            ObjectProperty::Uwire => 13,
            ObjectProperty::ExplicitScalared => 23,
            ObjectProperty::ExplicitVectored => 24,
            ObjectProperty::Expanded => 25,
            ObjectProperty::ImplicitDecl => 26,
            ObjectProperty::ChargeStrength => 27,
            ObjectProperty::Array => 28,
            ObjectProperty::PortIndex => 29,
            ObjectProperty::TermIndex => 30,
            ObjectProperty::Strength0 => 31,
            ObjectProperty::Strength1 => 32,
            ObjectProperty::PrimType => 33,
            ObjectProperty::AndPrim => 1,
            ObjectProperty::NandPrim => 2,
            ObjectProperty::NorPrim => 3,
            ObjectProperty::OrPrim => 4,
            ObjectProperty::XorPrim => 5,
            ObjectProperty::XnorPrim => 6,
            ObjectProperty::BufPrim => 7,
            ObjectProperty::NotPrim => 8,
            ObjectProperty::Bufif0Prim => 9,
            ObjectProperty::Bufif1Prim => 10,
            ObjectProperty::Notif0Prim => 11,
            ObjectProperty::Notif1Prim => 12,
            ObjectProperty::NmosPrim => 13,
            ObjectProperty::PmosPrim => 14,
            ObjectProperty::CmosPrim => 15,
            ObjectProperty::RnmosPrim => 16,
            ObjectProperty::RpmosPrim => 17,
            ObjectProperty::RcmosPrim => 18,
            ObjectProperty::RtranPrim => 19,
            ObjectProperty::Rtranif0Prim => 20,
            ObjectProperty::Rtranif1Prim => 21,
            ObjectProperty::TranPrim => 22,
            ObjectProperty::Tranif0Prim => 23,
            ObjectProperty::Tranif1Prim => 24,
            ObjectProperty::PullupPrim => 25,
            ObjectProperty::PulldownPrim => 26,
            ObjectProperty::SeqPrim => 27,
            ObjectProperty::CombPrim => 28,
            ObjectProperty::Polarity => 34,
            ObjectProperty::DataPolarity => 35,
            ObjectProperty::Positive => 1,
            ObjectProperty::Negative => 2,
            ObjectProperty::Unknown => 3,
            ObjectProperty::Edge => 36,
            ObjectProperty::NoEdge => 0,
            ObjectProperty::Edge01 => 1,
            ObjectProperty::Edge10 => 2,
            ObjectProperty::Edge0x => 4,
            ObjectProperty::Edgex1 => 8,
            ObjectProperty::Edge1x => 16,
            ObjectProperty::Edgex0 => 32,
            ObjectProperty::Posedge => 13,
            ObjectProperty::Negedge => 50,
            ObjectProperty::AnyEdge => 63,
            ObjectProperty::PathType => 37,
            ObjectProperty::PathFull => 1,
            ObjectProperty::PathParallel => 2,
            ObjectProperty::TchkType => 38,
            ObjectProperty::Setup => 1,
            ObjectProperty::Hold => 2,
            ObjectProperty::Period => 3,
            ObjectProperty::Width => 4,
            ObjectProperty::Skew => 5,
            ObjectProperty::Recovery => 6,
            ObjectProperty::NoChange => 7,
            ObjectProperty::SetupHold => 8,
            ObjectProperty::Fullskew => 9,
            ObjectProperty::Recrem => 10,
            ObjectProperty::Removal => 11,
            ObjectProperty::Timeskew => 12,
            ObjectProperty::OpType => 39,
            ObjectProperty::MinusOp => 1,
            ObjectProperty::PlusOp => 2,
            ObjectProperty::NotOp => 3,
            ObjectProperty::BitNegOp => 4,
            ObjectProperty::UnaryAndOp => 5,
            ObjectProperty::UnaryNandOp => 6,
            ObjectProperty::UnaryOrOp => 7,
            ObjectProperty::UnaryNorOp => 8,
            ObjectProperty::UnaryXorOp => 9,
            ObjectProperty::UnaryXNorOp => 10,
            ObjectProperty::SubOp => 11,
            ObjectProperty::DivOp => 12,
            ObjectProperty::ModOp => 13,
            ObjectProperty::EqOp => 14,
            ObjectProperty::NeqOp => 15,
            ObjectProperty::CaseEqOp => 16,
            ObjectProperty::CaseNeqOp => 17,
            ObjectProperty::GtOp => 18,
            ObjectProperty::GeOp => 19,
            ObjectProperty::LtOp => 20,
            ObjectProperty::LeOp => 21,
            ObjectProperty::LShiftOp => 22,
            ObjectProperty::RShiftOp => 23,
            ObjectProperty::AddOp => 24,
            ObjectProperty::MultOp => 25,
            ObjectProperty::LogAndOp => 26,
            ObjectProperty::LogOrOp => 27,
            ObjectProperty::BitAndOp => 28,
            ObjectProperty::BitOrOp => 29,
            ObjectProperty::BitXorOp => 30,
            ObjectProperty::BitXNorOp => 31,
            ObjectProperty::ConditionOp => 32,
            ObjectProperty::ConcatOp => 33,
            ObjectProperty::MultiConcatOp => 34,
            ObjectProperty::EventOrOp => 35,
            ObjectProperty::NullOp => 36,
            ObjectProperty::ListOp => 37,
            ObjectProperty::MinTypMaxOp => 38,
            ObjectProperty::PosedgeOp => 39,
            ObjectProperty::NegedgeOp => 40,
            ObjectProperty::ArithLShiftOp => 41,
            ObjectProperty::ArithRShiftOp => 42,
            ObjectProperty::PowerOp => 43,
            ObjectProperty::ConstType => 40,
            ObjectProperty::DecConst => 1,
            ObjectProperty::RealConst => 2,
            ObjectProperty::BinaryConst => 3,
            ObjectProperty::OctConst => 4,
            ObjectProperty::HexConst => 5,
            ObjectProperty::StringConst => 6,
            ObjectProperty::IntConst => 7,
            ObjectProperty::TimeConst => 8,
            ObjectProperty::Blocking => 41,
            ObjectProperty::CaseType => 42,
            ObjectProperty::CaseExact => 1,
            ObjectProperty::CaseX => 2,
            ObjectProperty::CaseZ => 3,
            ObjectProperty::NetDeclAssign => 43,
            ObjectProperty::FuncType => 44,
            ObjectProperty::IntFunc => 1,
            ObjectProperty::RealFunc => 2,
            ObjectProperty::TimeFunc => 3,
            ObjectProperty::SizedFunc => 4,
            ObjectProperty::SizedSignedFunc => 5,
            ObjectProperty::SysFuncType => 44,
            ObjectProperty::SysFuncInt => 1,
            ObjectProperty::SysFuncReal => 2,
            ObjectProperty::SysFuncTime => 3,
            ObjectProperty::SysFuncSized => 4,
            ObjectProperty::UserDefn => 45,
            ObjectProperty::Scheduled => 46,
            ObjectProperty::Active => 49,
            ObjectProperty::Automatic => 50,
            ObjectProperty::Cell => 51,
            ObjectProperty::Config => 52,
            ObjectProperty::ConstantSelect => 53,
            ObjectProperty::Decompile => 54,
            ObjectProperty::DefAttribute => 55,
            ObjectProperty::DelayType => 56,
            ObjectProperty::ModPathDelay => 1,
            ObjectProperty::InterModPathDelay => 2,
            ObjectProperty::MIPDelay => 3,
            ObjectProperty::IteratorType => 57,
            ObjectProperty::Library => 58,
            ObjectProperty::Offset => 60,
            ObjectProperty::ResolvedNetType => 61,
            ObjectProperty::SaveRestartID => 62,
            ObjectProperty::SaveRestartLocation => 63,
            ObjectProperty::Valid => 64,
            ObjectProperty::ValidFalse => 0,
            ObjectProperty::ValidTrue => 1,
            ObjectProperty::Signed => 65,
            ObjectProperty::LocalParam => 70,
            ObjectProperty::ModPathHasIfNone => 71,
            ObjectProperty::IndexedPartSelectType => 72,
            ObjectProperty::PosIndexed => 1,
            ObjectProperty::NegIndexed => 2,
            ObjectProperty::IsMemory => 73,
            ObjectProperty::IsProtected => 74,
}
    }

    /// The property that the simulator's integer `value` identifies, if any.
    pub open spec fn decode(value: i32) -> Option<ObjectProperty> {
        if exists|p: ObjectProperty| p.is_identifier() && p.native_code() == value {
            Some(choose|p: ObjectProperty| p.is_identifier() && p.native_code() == value)
        } else {
            None
        }
    }

    /// Whether this variant names a property of an object.
    pub fn identifies_property(self) -> (r: bool)
        ensures
            r == self.is_identifier(),
    {
        proof {
            if self.is_identifier() {
                Self::lemma_code_roundtrip(self);
            }
            Self::lemma_decode_sound(self.native_code());
        }
        match ObjectProperty::try_from(i32::from(self)) {
            Ok(property) => property == self,
            Err(_) => false,
        }
    }

    /// No two properties share an integer.
    pub proof fn lemma_code_injective(a: ObjectProperty, b: ObjectProperty)
        requires
            a.is_identifier(),
            b.is_identifier(),
        ensures
            a.native_code() == b.native_code() ==> a == b,
    {
    }

    /// Decoding undoes the encoding of a property.
    pub proof fn lemma_code_roundtrip(p: ObjectProperty)
        requires
            p.is_identifier(),
        ensures
            ObjectProperty::decode(p.native_code()) == Some(p),
    {
        let back = choose|q: ObjectProperty| q.is_identifier() && q.native_code() == p.native_code();
        Self::lemma_code_injective(back, p);
    }

    /// Decoding yields a property, and encoding undoes it.
    pub proof fn lemma_decode_sound(value: i32)
        ensures
            ObjectProperty::decode(value) matches Some(p) ==> p.is_identifier() && p.native_code()
                == value,
    {
    }
}

/// The simulator's integer for a property or for a value of a property.
impl From<ObjectProperty> for i32 {
    fn from(prop: ObjectProperty) -> (r: i32) {
        match prop {
            ObjectProperty::Undefined => -1i32,
            ObjectProperty::Type => 1,
            ObjectProperty::Name => 2,
            ObjectProperty::FullName => 3,
            ObjectProperty::Size => 4,
            ObjectProperty::File => 5,
            ObjectProperty::LineNo => 6,
            ObjectProperty::TopModule => 7,
            ObjectProperty::CellInstance => 8,
            ObjectProperty::DefName => 9,
            ObjectProperty::Protected => 10,
            ObjectProperty::TimeUnit => 11,
            ObjectProperty::TimePrecision => 12,
            ObjectProperty::DefNetType => 13,
            ObjectProperty::UnconnDrive => 14,
            ObjectProperty::HighZ => 1,
            ObjectProperty::Pull1 => 2,
            ObjectProperty::Pull0 => 3,
            ObjectProperty::DefFile => 15,
            ObjectProperty::DefLineNo => 16,
            ObjectProperty::DefDelayMode => 47,
            ObjectProperty::DelayModeNone => 1,
            ObjectProperty::DelayModePath => 2,
            ObjectProperty::DelayModeDistrib => 3,
            ObjectProperty::DelayModeUnit => 4,
            ObjectProperty::DelayModeZero => 5,
            ObjectProperty::DelayModeMTM => 6,
            ObjectProperty::DefDecayTime => 48,
            ObjectProperty::Scalar => 17,
            ObjectProperty::Vector => 18,
            ObjectProperty::ExplicitName => 19,
            ObjectProperty::Direction => 20,
            ObjectProperty::Input => 1,
            ObjectProperty::Output => 2,
            ObjectProperty::Inout => 3,
            ObjectProperty::MixedIO => 4,
            ObjectProperty::NoDirection => 5,
            ObjectProperty::ConnByName => 21,
            ObjectProperty::NetType => 22,
            ObjectProperty::Wire => 1,
            ObjectProperty::Wand => 2,
            ObjectProperty::Wor => 3,
            ObjectProperty::Tri => 4,
            ObjectProperty::Tri0 => 5,
            ObjectProperty::Tri1 => 6,
            ObjectProperty::TriReg => 7,
            ObjectProperty::TriAnd => 8,
            ObjectProperty::TriOr => 9,
            ObjectProperty::Supply1 => 10,
            ObjectProperty::Supply0 => 11,
            ObjectProperty::NoDefaultNet => 12,
            ObjectProperty::Uwire => 13,
            ObjectProperty::ExplicitScalared => 23,
            ObjectProperty::ExplicitVectored => 24,
            ObjectProperty::Expanded => 25,
            ObjectProperty::ImplicitDecl => 26,
            ObjectProperty::ChargeStrength => 27,
            ObjectProperty::Array => 28,
            ObjectProperty::PortIndex => 29,
            ObjectProperty::TermIndex => 30,
            ObjectProperty::Strength0 => 31,
            ObjectProperty::Strength1 => 32,
            ObjectProperty::PrimType => 33,
            ObjectProperty::AndPrim => 1,
            ObjectProperty::NandPrim => 2,
            ObjectProperty::NorPrim => 3,
            ObjectProperty::OrPrim => 4,
            ObjectProperty::XorPrim => 5,
            ObjectProperty::XnorPrim => 6,
            ObjectProperty::BufPrim => 7,
            ObjectProperty::NotPrim => 8,
            ObjectProperty::Bufif0Prim => 9,
            ObjectProperty::Bufif1Prim => 10,
            ObjectProperty::Notif0Prim => 11,
            ObjectProperty::Notif1Prim => 12,
            ObjectProperty::NmosPrim => 13,
            ObjectProperty::PmosPrim => 14,
            ObjectProperty::CmosPrim => 15,
            ObjectProperty::RnmosPrim => 16,
            ObjectProperty::RpmosPrim => 17,
            ObjectProperty::RcmosPrim => 18,
            ObjectProperty::RtranPrim => 19,
            ObjectProperty::Rtranif0Prim => 20,
            ObjectProperty::Rtranif1Prim => 21,
            ObjectProperty::TranPrim => 22,
            ObjectProperty::Tranif0Prim => 23,
            ObjectProperty::Tranif1Prim => 24,
            ObjectProperty::PullupPrim => 25,
            ObjectProperty::PulldownPrim => 26,
            ObjectProperty::SeqPrim => 27,
            ObjectProperty::CombPrim => 28,
            ObjectProperty::Polarity => 34,
            ObjectProperty::DataPolarity => 35,
            ObjectProperty::Positive => 1,
            ObjectProperty::Negative => 2,
            ObjectProperty::Unknown => 3,
            ObjectProperty::Edge => 36,
            ObjectProperty::NoEdge => 0,
            ObjectProperty::Edge01 => 1,
            ObjectProperty::Edge10 => 2,
            ObjectProperty::Edge0x => 4,
            ObjectProperty::Edgex1 => 8,
            ObjectProperty::Edge1x => 16,
            ObjectProperty::Edgex0 => 32,
            ObjectProperty::Posedge => 13,
            ObjectProperty::Negedge => 50,
            ObjectProperty::AnyEdge => 63,
            ObjectProperty::PathType => 37,
            ObjectProperty::PathFull => 1,
            ObjectProperty::PathParallel => 2,
            ObjectProperty::TchkType => 38,
            ObjectProperty::Setup => 1,
            ObjectProperty::Hold => 2,
            ObjectProperty::Period => 3,
            ObjectProperty::Width => 4,
            ObjectProperty::Skew => 5,
            ObjectProperty::Recovery => 6,
            ObjectProperty::NoChange => 7,
            ObjectProperty::SetupHold => 8,
            ObjectProperty::Fullskew => 9,
            ObjectProperty::Recrem => 10,
            ObjectProperty::Removal => 11,
            ObjectProperty::Timeskew => 12,
            ObjectProperty::OpType => 39,
            ObjectProperty::MinusOp => 1,
            ObjectProperty::PlusOp => 2,
            ObjectProperty::NotOp => 3,
            ObjectProperty::BitNegOp => 4,
            ObjectProperty::UnaryAndOp => 5,
            ObjectProperty::UnaryNandOp => 6,
            ObjectProperty::UnaryOrOp => 7,
            ObjectProperty::UnaryNorOp => 8,
            ObjectProperty::UnaryXorOp => 9,
            ObjectProperty::UnaryXNorOp => 10,
            ObjectProperty::SubOp => 11,
            ObjectProperty::DivOp => 12,
            ObjectProperty::ModOp => 13,
            ObjectProperty::EqOp => 14,
            ObjectProperty::NeqOp => 15,
            ObjectProperty::CaseEqOp => 16,
            ObjectProperty::CaseNeqOp => 17,
            ObjectProperty::GtOp => 18,
            ObjectProperty::GeOp => 19,
            ObjectProperty::LtOp => 20,
            ObjectProperty::LeOp => 21,
            ObjectProperty::LShiftOp => 22,
            ObjectProperty::RShiftOp => 23,
            ObjectProperty::AddOp => 24,
            ObjectProperty::MultOp => 25,
            ObjectProperty::LogAndOp => 26,
            ObjectProperty::LogOrOp => 27,
            ObjectProperty::BitAndOp => 28,
            ObjectProperty::BitOrOp => 29,
            ObjectProperty::BitXorOp => 30,
            ObjectProperty::BitXNorOp => 31,
            ObjectProperty::ConditionOp => 32,
            ObjectProperty::ConcatOp => 33,
            ObjectProperty::MultiConcatOp => 34,
            ObjectProperty::EventOrOp => 35,
            ObjectProperty::NullOp => 36,
            ObjectProperty::ListOp => 37,
            ObjectProperty::MinTypMaxOp => 38,
            ObjectProperty::PosedgeOp => 39,
            ObjectProperty::NegedgeOp => 40,
            ObjectProperty::ArithLShiftOp => 41,
            ObjectProperty::ArithRShiftOp => 42,
            ObjectProperty::PowerOp => 43,
            ObjectProperty::ConstType => 40,
            ObjectProperty::DecConst => 1,
            ObjectProperty::RealConst => 2,
            ObjectProperty::BinaryConst => 3,
            ObjectProperty::OctConst => 4,
            ObjectProperty::HexConst => 5,
            ObjectProperty::StringConst => 6,
            ObjectProperty::IntConst => 7,
            ObjectProperty::TimeConst => 8,
            ObjectProperty::Blocking => 41,
            ObjectProperty::CaseType => 42,
            ObjectProperty::CaseExact => 1,
            ObjectProperty::CaseX => 2,
            ObjectProperty::CaseZ => 3,
            ObjectProperty::NetDeclAssign => 43,
            ObjectProperty::FuncType => 44,
            ObjectProperty::IntFunc => 1,
            ObjectProperty::RealFunc => 2,
            ObjectProperty::TimeFunc => 3,
            ObjectProperty::SizedFunc => 4,
            ObjectProperty::SizedSignedFunc => 5,
            ObjectProperty::SysFuncType => 44,
            ObjectProperty::SysFuncInt => 1,
            ObjectProperty::SysFuncReal => 2,
            ObjectProperty::SysFuncTime => 3,
            ObjectProperty::SysFuncSized => 4,
            ObjectProperty::UserDefn => 45,
            ObjectProperty::Scheduled => 46,
            ObjectProperty::Active => 49,
            ObjectProperty::Automatic => 50,
            ObjectProperty::Cell => 51,
            ObjectProperty::Config => 52,
            ObjectProperty::ConstantSelect => 53,
            ObjectProperty::Decompile => 54,
            ObjectProperty::DefAttribute => 55,
            ObjectProperty::DelayType => 56,
            ObjectProperty::ModPathDelay => 1,
            ObjectProperty::InterModPathDelay => 2,
            ObjectProperty::MIPDelay => 3,
            ObjectProperty::IteratorType => 57,
            ObjectProperty::Library => 58,
            ObjectProperty::Offset => 60,
            ObjectProperty::ResolvedNetType => 61,
            ObjectProperty::SaveRestartID => 62,
            ObjectProperty::SaveRestartLocation => 63,
            ObjectProperty::Valid => 64,
            ObjectProperty::ValidFalse => 0,
            ObjectProperty::ValidTrue => 1,
            ObjectProperty::Signed => 65,
            ObjectProperty::LocalParam => 70,
            ObjectProperty::ModPathHasIfNone => 71,
            ObjectProperty::IndexedPartSelectType => 72,
            ObjectProperty::PosIndexed => 1,
            ObjectProperty::NegIndexed => 2,
            ObjectProperty::IsMemory => 73,
            ObjectProperty::IsProtected => 74,
}
    }
}

impl vstd::std_specs::convert::FromSpecImpl<ObjectProperty> for i32 {
    open spec fn obeys_from_spec() -> bool {
        true
    }

    open spec fn from_spec(prop: ObjectProperty) -> i32 {
        prop.native_code()
    }
}

/// Decodes the simulator's integer for a property. An integer that
/// identifies no property is an [`Error::EnumConversion`]. An integer of the
/// other namespace, that of object types, is not told apart here: decode it
/// with [`ObjectType`].
impl TryFrom<i32> for ObjectProperty {
    type Error = Box<Error>;

    fn try_from(value: i32) -> (r: Result<Self, Box<Error>>) {
        let found = match value {
            -1 => Ok(ObjectProperty::Undefined),
            1 => Ok(ObjectProperty::Type),
            2 => Ok(ObjectProperty::Name),
            3 => Ok(ObjectProperty::FullName),
            4 => Ok(ObjectProperty::Size),
            5 => Ok(ObjectProperty::File),
            6 => Ok(ObjectProperty::LineNo),
            7 => Ok(ObjectProperty::TopModule),
            8 => Ok(ObjectProperty::CellInstance),
            9 => Ok(ObjectProperty::DefName),
            10 => Ok(ObjectProperty::Protected),
            11 => Ok(ObjectProperty::TimeUnit),
            12 => Ok(ObjectProperty::TimePrecision),
            13 => Ok(ObjectProperty::DefNetType),
            14 => Ok(ObjectProperty::UnconnDrive),
            15 => Ok(ObjectProperty::DefFile),
            16 => Ok(ObjectProperty::DefLineNo),
            17 => Ok(ObjectProperty::Scalar),
            18 => Ok(ObjectProperty::Vector),
            19 => Ok(ObjectProperty::ExplicitName),
            20 => Ok(ObjectProperty::Direction),
            21 => Ok(ObjectProperty::ConnByName),
            22 => Ok(ObjectProperty::NetType),
            23 => Ok(ObjectProperty::ExplicitScalared),
            24 => Ok(ObjectProperty::ExplicitVectored),
            25 => Ok(ObjectProperty::Expanded),
            26 => Ok(ObjectProperty::ImplicitDecl),
            27 => Ok(ObjectProperty::ChargeStrength),
            28 => Ok(ObjectProperty::Array),
            29 => Ok(ObjectProperty::PortIndex),
            30 => Ok(ObjectProperty::TermIndex),
            31 => Ok(ObjectProperty::Strength0),
            32 => Ok(ObjectProperty::Strength1),
            33 => Ok(ObjectProperty::PrimType),
            34 => Ok(ObjectProperty::Polarity),
            35 => Ok(ObjectProperty::DataPolarity),
            36 => Ok(ObjectProperty::Edge),
            37 => Ok(ObjectProperty::PathType),
            38 => Ok(ObjectProperty::TchkType),
            39 => Ok(ObjectProperty::OpType),
            40 => Ok(ObjectProperty::ConstType),
            41 => Ok(ObjectProperty::Blocking),
            42 => Ok(ObjectProperty::CaseType),
            43 => Ok(ObjectProperty::NetDeclAssign),
            44 => Ok(ObjectProperty::FuncType),
            45 => Ok(ObjectProperty::UserDefn),
            46 => Ok(ObjectProperty::Scheduled),
            47 => Ok(ObjectProperty::DefDelayMode),
            48 => Ok(ObjectProperty::DefDecayTime),
            49 => Ok(ObjectProperty::Active),
            50 => Ok(ObjectProperty::Automatic),
            51 => Ok(ObjectProperty::Cell),
            52 => Ok(ObjectProperty::Config),
            53 => Ok(ObjectProperty::ConstantSelect),
            54 => Ok(ObjectProperty::Decompile),
            55 => Ok(ObjectProperty::DefAttribute),
            56 => Ok(ObjectProperty::DelayType),
            57 => Ok(ObjectProperty::IteratorType),
            58 => Ok(ObjectProperty::Library),
            60 => Ok(ObjectProperty::Offset),
            61 => Ok(ObjectProperty::ResolvedNetType),
            62 => Ok(ObjectProperty::SaveRestartID),
            63 => Ok(ObjectProperty::SaveRestartLocation),
            64 => Ok(ObjectProperty::Valid),
            65 => Ok(ObjectProperty::Signed),
            70 => Ok(ObjectProperty::LocalParam),
            71 => Ok(ObjectProperty::ModPathHasIfNone),
            72 => Ok(ObjectProperty::IndexedPartSelectType),
            73 => Ok(ObjectProperty::IsMemory),
            74 => Ok(ObjectProperty::IsProtected),
_ => Err(
                Box::new(Error::EnumConversion { from_int: value, to_enum: "ObjectProperty" }),
            ),
        };
        proof {
            match found {
                Ok(p) => {
                    Self::lemma_code_roundtrip(p);
                },
                Err(_) => {
                    assert forall|p: ObjectProperty| p.is_identifier() implies p.native_code()
                        != value by {
                        Self::lemma_code_roundtrip(p);
                    }
                },
            }
        }
        found
    }
}

impl vstd::std_specs::convert::TryFromSpecImpl<i32> for ObjectProperty {
    open spec fn obeys_try_from_spec() -> bool {
        true
    }

    open spec fn try_from_spec(value: i32) -> Result<Self, Box<Error>> {
        match ObjectProperty::decode(value) {
            Some(p) => Ok(p),
            None => Err(
                Box::new(Error::EnumConversion { from_int: value, to_enum: "ObjectProperty" }),
            ),
        }
    }
}

impl Scalar {
    /// The simulator's integer for this bit value.
    pub open spec fn native_code(self) -> i32 {
        match self {
            Scalar::Zero => 0,
            Scalar::One => 1,
            Scalar::X => 3,
            Scalar::Z => 2,
        }
    }

    pub fn code(self) -> (r: i32)
        ensures
            r == self.native_code(),
    {
        match self {
            Scalar::Zero => 0,
            Scalar::One => 1,
            Scalar::X => 3,
            Scalar::Z => 2,
        }
    }
}

impl ValueKind {
    /// The simulator's integer for this representation.
    pub open spec fn native_code(self) -> i32 {
        match self {
            ValueKind::BinStr => 1,
            ValueKind::OctStr => 2,
            ValueKind::DecStr => 3,
            ValueKind::HexStr => 4,
            ValueKind::Scalar => 5,
            ValueKind::Integer => 6,
            ValueKind::Real => 7,
            ValueKind::String => 8,
            ValueKind::Vector => 9,
            ValueKind::Strength => 10,
            ValueKind::Suppress => 13,
            ValueKind::Time => 11,
            ValueKind::ObjType => 12,
        }
    }

    pub fn code(self) -> (r: i32)
        ensures
            r == self.native_code(),
    {
        match self {
            ValueKind::BinStr => 1,
            ValueKind::OctStr => 2,
            ValueKind::DecStr => 3,
            ValueKind::HexStr => 4,
            ValueKind::Scalar => 5,
            ValueKind::Integer => 6,
            ValueKind::Real => 7,
            ValueKind::String => 8,
            ValueKind::Vector => 9,
            ValueKind::Strength => 10,
            ValueKind::Suppress => 13,
            ValueKind::Time => 11,
            ValueKind::ObjType => 12,
        }
    }
}

impl Value {
    /// The representation that this value is in.
    pub open spec fn kind_of(self) -> ValueKind {
        match self {
            Value::BinStr(_) => ValueKind::BinStr,
            Value::OctStr(_) => ValueKind::OctStr,
            Value::DecStr(_) => ValueKind::DecStr,
            Value::HexStr(_) => ValueKind::HexStr,
            Value::Scalar(_) => ValueKind::Scalar,
            Value::Integer(_) => ValueKind::Integer,
            Value::Real(_) => ValueKind::Real,
            Value::String(_) => ValueKind::String,
            Value::Vector(_) => ValueKind::Vector,
            Value::Strength => ValueKind::Strength,
            Value::Suppress => ValueKind::Suppress,
            Value::Time => ValueKind::Time,
            Value::ObjType => ValueKind::ObjType,
        }
    }

    pub fn kind(&self) -> (r: ValueKind)
        ensures
            r == self.kind_of(),
    {
        match self {
            Value::BinStr(_) => ValueKind::BinStr,
            Value::OctStr(_) => ValueKind::OctStr,
            Value::DecStr(_) => ValueKind::DecStr,
            Value::HexStr(_) => ValueKind::HexStr,
            Value::Scalar(_) => ValueKind::Scalar,
            Value::Integer(_) => ValueKind::Integer,
            Value::Real(_) => ValueKind::Real,
            Value::String(_) => ValueKind::String,
            Value::Vector(_) => ValueKind::Vector,
            Value::Strength => ValueKind::Strength,
            Value::Suppress => ValueKind::Suppress,
            Value::Time => ValueKind::Time,
            Value::ObjType => ValueKind::ObjType,
        }
    }
}

impl ObjectHandle {
    #[verifier::type_invariant]
    spec fn is_not_null(self) -> bool {
        self.raw != 0
    }

    /// The address of the native handle.
    pub closed spec fn address(&self) -> usize {
        self.raw
    }

    /// Wraps a native handle, which must not be null.
    pub fn from_raw(raw: usize) -> (r: ObjectHandle)
        requires
            raw != 0,
        ensures
            r.address() == raw,
    {
        ObjectHandle { raw }
    }

    /// The address of the native handle, to pass it to the simulator. It is
    /// never null.
    pub fn as_raw(&self) -> (r: usize)
        ensures
            r == self.address(),
            r != 0,
    {
        proof {
            use_type_invariant(self);
        }
        self.raw
    }

    /// The request that reads a 32-bit property of this object. It serves
    /// [`ObjectHandle::get_property_i32`] and [`ObjectHandle::get_property_bool`].
    pub fn vpi_get_request(
        &self,
        startup: &StartupState,
        thread: u64,
        property: ObjectProperty,
    ) -> (r: Request)
        requires
            startup.permits(thread),
        ensures
            r == (Request::Get { property: property.native_code(), object: self.address() }),
    {
        Request::Get { property: i32::from(property), object: self.raw }
    }

    /// The request that reads a 64-bit property of this object.
    pub fn vpi_get64_request(
        &self,
        startup: &StartupState,
        thread: u64,
        property: ObjectProperty,
    ) -> (r: Request)
        requires
            startup.permits(thread),
        ensures
            r == (Request::Get64 { property: property.native_code(), object: self.address() }),
    {
        Request::Get64 { property: i32::from(property), object: self.raw }
    }

    /// The request that reads a string property of this object. It serves
    /// [`ObjectHandle::get_property_cstring`] and
    /// [`ObjectHandle::get_property_string`].
    pub fn vpi_get_str_request(
        &self,
        startup: &StartupState,
        thread: u64,
        property: ObjectProperty,
    ) -> (r: Request)
        requires
            startup.permits(thread),
        ensures
            r == (Request::GetStr { property: property.native_code(), object: self.address() }),
    {
        Request::GetStr { property: i32::from(property), object: self.raw }
    }

    /// The request that asks whether this handle and `other` stand for the
    /// same object.
    pub fn vpi_compare_objects_request(
        &self,
        startup: &StartupState,
        thread: u64,
        other: &ObjectHandle,
    ) -> (r: Request)
        requires
            startup.permits(thread),
        ensures
            r == (Request::CompareObjects { first: self.address(), second: other.address() }),
    {
        Request::CompareObjects { first: self.raw, second: other.raw }
    }

    /// What a boolean property holds, given the integer that the simulator
    /// returned for it.
    pub open spec fn bool_of(reply: Reply<i32>) -> Result<bool, Box<Error>> {
        match reply.checked() {
            Err(e) => Err(e),
            Ok(value) => if value == 0 {
                Ok(false)
            } else if value == 1 {
                Ok(true)
            } else {
                Err(Box::new(Error::UnknownSimulatorError))
            },
        }
    }

    /// Completes the reading of a boolean property. The simulator returns 0
    /// for false and 1 for true; any other integer shows that the property is
    /// no boolean, and is reported as an unclassified error.
    pub fn get_property_bool(&self, reply: Reply<i32>) -> (r: Result<bool, Box<Error>>)
        ensures
            r == Self::bool_of(reply),
    {
        let property_integer = match self.get_property_i32(reply) {
            Ok(value) => value,
            Err(e) => {
                return Err(e);
            },
        };
        match property_integer {
            0 => Ok(false),
            1 => Ok(true),
            _ => Err(Box::new(Error::UnknownSimulatorError)),
        }
    }

    /// Completes the reading of a 32-bit property.
    pub fn get_property_i32(&self, reply: Reply<i32>) -> (r: Result<i32, Box<Error>>)
        ensures
            r == reply.checked(),
    {
        reply.check()
    }

    /// Completes the reading of a 64-bit property.
    pub fn get_property_i64(&self, reply: Reply<i64>) -> (r: Result<i64, Box<Error>>)
        ensures
            r == reply.checked(),
    {
        reply.check()
    }

    /// The bytes of a string property, given what the simulator returned for
    /// it: `None` stands for a null pointer.
    pub open spec fn cstring_of(reply: Reply<Option<Vec<u8>>>) -> Result<Vec<u8>, Box<Error>> {
        match reply.checked() {
            Err(e) => Err(e),
            Ok(None) => Err(Box::new(Error::UnknownSimulatorError)),
            Ok(Some(bytes)) => Ok(bytes),
        }
    }

    /// Completes the reading of a string property, as bytes. The reply holds
    /// a copy of the simulator's string, or `None` where the simulator
    /// returned a null pointer, as some simulators do for a property that does
    /// not exist or is no string; that is reported as an unclassified error.
    pub fn get_property_cstring(&self, reply: Reply<Option<Vec<u8>>>) -> (r: Result<
        Vec<u8>,
        Box<Error>,
    >)
        ensures
            r == Self::cstring_of(reply),
    {
        match reply.check() {
            Err(e) => Err(e),
            Ok(None) => Err(Box::new(Error::UnknownSimulatorError)),
            Ok(Some(bytes)) => Ok(bytes),
        }
    }

    /// Completes the reading of a string property, as text. Bytes that are
    /// not UTF-8 are reported as [`Error::Other`].
    pub fn get_property_string(&self, reply: Reply<Option<Vec<u8>>>) -> (r: Result<
        String,
        Box<Error>,
    >)
        ensures
            Self::cstring_of(reply) matches Err(e) ==> r == Err::<String, Box<Error>>(e),
            Self::cstring_of(reply) matches Ok(bytes) ==> is_text_of(r, bytes@),
    {
        match self.get_property_cstring(reply) {
            Ok(bytes) => text_of(&bytes),
            Err(e) => Err(e),
        }
    }

    /// Whether two handles stand for the same object, given the simulator's
    /// answer: 1 says that they do. An error of the comparison is handed on.
    pub open spec fn same_object_of(reply: Reply<i32>) -> Result<bool, Box<Error>> {
        match reply.checked() {
            Err(e) => Err(e),
            Ok(value) => Ok(value == 1),
        }
    }

    /// Completes the comparison of two handles.
    pub fn same_object(&self, reply: Reply<i32>) -> (r: Result<bool, Box<Error>>)
        ensures
            r == Self::same_object_of(reply),
    {
        match reply.check() {
            Err(e) => Err(e),
            Ok(value) => Ok(value == 1),
        }
    }
}

/// One step of an enumeration, on addresses: from the cursor and the
/// simulator's answer to a scan, to the cursor that remains and the handle
/// that is yielded. Without a cursor nothing is yielded. A failed scan and a
/// null handle both end the enumeration. Otherwise the handle is yielded and
/// the cursor stays as it was.
pub open spec fn scan_step(cursor: Option<usize>, scanned: usize, failed: bool) -> (
    Option<usize>,
    Option<usize>,
) {
    match cursor {
        None => (None, None),
        Some(c) => if failed || scanned == 0 {
            (None, None)
        } else {
            (Some(c), Some(scanned))
        },
    }
}

/// The scan to issue for a cursor: none once the cursor is gone.
pub open spec fn scan_request(cursor: Option<usize>) -> Option<Request> {
    match cursor {
        None => None,
        Some(c) => Some(Request::Scan { iterator: c }),
    }
}

/// Once a step yields nothing, the cursor is gone; from then on every step
/// yields nothing, whatever the simulator would answer, and no scan is issued.
pub proof fn lemma_exhaustion_is_permanent(
    cursor: Option<usize>,
    scanned: usize,
    failed: bool,
    later_scanned: usize,
    later_failed: bool,
)
    requires
        scan_step(cursor, scanned, failed).1 is None,
    ensures
        scan_step(cursor, scanned, failed).0 is None,
        scan_request(scan_step(cursor, scanned, failed).0) is None,
        scan_step(scan_step(cursor, scanned, failed).0, later_scanned, later_failed) == (
            None::<usize>,
            None::<usize>,
        ),
{
}

impl ObjectChildrenIterator {
    /// The address of the cursor, while the enumeration goes on.
    pub closed spec fn cursor(&self) -> Option<usize> {
        match self.iterator_handle {
            Some(handle) => Some(handle.address()),
            None => None,
        }
    }

    /// The request that begins the enumeration of the roots of a type.
    pub fn of_root_request(startup: &StartupState, thread: u64, object_type: ObjectType) -> (r:
        Request)
        requires
            startup.permits(thread),
        ensures
            r == (Request::Iterate { object_type: object_type.native_code(), parent: 0 }),
    {
        Request::Iterate { object_type: object_type.code(), parent: 0 }
    }

    /// The request that begins the enumeration of the children of `parent`
    /// that have the given type.
    pub fn of_request(
        startup: &StartupState,
        thread: u64,
        parent: &ObjectHandle,
        object_type: ObjectType,
    ) -> (r: Request)
        requires
            startup.permits(thread),
        ensures
            r == (Request::Iterate {
                object_type: object_type.native_code(),
                parent: parent.address(),
            }),
            parent.address() != 0,
    {
        Request::Iterate { object_type: object_type.code(), parent: parent.as_raw() }
    }

    /// The cursor that an enumeration starts with, given the simulator's
    /// answer: none where it returned the null handle, which says that there
    /// is no child of that type.
    pub open spec fn first_cursor(reply: Reply<usize>) -> Result<Option<usize>, Box<Error>> {
        match reply.checked() {
            Err(e) => Err(e),
            Ok(raw) => Ok(
                if raw == 0 {
                    None
                } else {
                    Some(raw)
                },
            ),
        }
    }

    /// Begins the enumeration of the roots of a type, from the reply to
    /// [`ObjectChildrenIterator::of_root_request`].
    pub fn of_root(reply: Reply<usize>) -> (r: Result<ObjectChildrenIterator, Box<Error>>)
        ensures
            Self::first_cursor(reply) matches Err(e) ==> r == Err::<
                ObjectChildrenIterator,
                Box<Error>,
            >(e),
            Self::first_cursor(reply) matches Ok(cursor) ==> r matches Ok(it) && it.cursor()
                == cursor,
    {
        Self::begin(reply)
    }

    /// Begins the enumeration of the children of an object, from the reply to
    /// [`ObjectChildrenIterator::of_request`].
    pub fn of(reply: Reply<usize>) -> (r: Result<ObjectChildrenIterator, Box<Error>>)
        ensures
            Self::first_cursor(reply) matches Err(e) ==> r == Err::<
                ObjectChildrenIterator,
                Box<Error>,
            >(e),
            Self::first_cursor(reply) matches Ok(cursor) ==> r matches Ok(it) && it.cursor()
                == cursor,
    {
        Self::begin(reply)
    }

    fn begin(reply: Reply<usize>) -> (r: Result<ObjectChildrenIterator, Box<Error>>)
        ensures
            Self::first_cursor(reply) matches Err(e) ==> r == Err::<
                ObjectChildrenIterator,
                Box<Error>,
            >(e),
            Self::first_cursor(reply) matches Ok(cursor) ==> r matches Ok(it) && it.cursor()
                == cursor,
    {
        let raw_handle = match reply.check() {
            Ok(raw_handle) => raw_handle,
            Err(e) => {
                return Err(e);
            },
        };
        let iterator_handle = if raw_handle == 0 {
            None
        } else {
            Some(ObjectHandle::from_raw(raw_handle))
        };
        Ok(ObjectChildrenIterator { iterator_handle })
    }

    /// The scan to issue for the next child, or `None` once the enumeration
    /// is over: then no scan is to be issued.
    pub fn next_request(&self, startup: &StartupState, thread: u64) -> (r: Option<Request>)
        requires
            startup.permits(thread),
        ensures
            r == scan_request(self.cursor()),
    {
        match &self.iterator_handle {
            None => None,
            Some(handle) => Some(Request::Scan { iterator: handle.as_raw() }),
        }
    }

    /// Takes the simulator's answer to a scan and yields the next child, or
    /// `None` at the end. An error of the scan ends the enumeration like a
    /// null handle does: it is not handed on.
    pub fn next(&mut self, reply: Reply<usize>) -> (r: Option<ObjectHandle>)
        ensures
            (final(self).cursor(), Self::yielded(r)) == scan_step(
                old(self).cursor(),
                reply.value,
                reply.last_error.translated() is Err,
            ),
    {
        if self.iterator_handle.is_none() {
            return None;
        }
        let raw_handle_from_scan = match reply.check() {
            Ok(raw) => raw,
            Err(_) => {
                self.iterator_handle = None;
                return None;
            },
        };
        if raw_handle_from_scan == 0 {
            self.iterator_handle = None;
            None
        } else {
            Some(ObjectHandle::from_raw(raw_handle_from_scan))
        }
    }

    /// The address of a yielded handle.
    pub open spec fn yielded(item: Option<ObjectHandle>) -> Option<usize> {
        match item {
            Some(handle) => Some(handle.address()),
            None => None,
        }
    }
}

} // verus!
