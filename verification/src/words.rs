//! The fixed words of the generated source.

use proc_macro2::TokenStream;
use vstd::prelude::*;

use crate::tokens::{push_ident, stream_tokens, Token};

verus! {

/// A word that the generated source holds whatever the graph is.
#[derive(Clone, Copy, Debug, PartialEq, Eq, Structural)]
pub enum Word {
    Use,
    Burn,
    ModulePath,
    Module,
    TensorPath,
    BackendPath,
    Backend,
    Tensor,
    Int,
    Bool,
    Derive,
    Debug,
    Pub,
    Struct,
    Model,
    B,
    Phantom,
    Core,
    Marker,
    PhantomData,
    DeviceValue,
    Ignored,
    Device,
    Impl,
    Allow,
    UnusedVariables,
    Fn,
    New,
    SelfType,
    Clone,
    Clippy,
    LetAndReturn,
    ApproxConstant,
    Forward,
    SelfValue,
    Let,
    Expand,
    TryInto,
    IntElem,
    TryIntoCall,
    ToData,
    AsSlice,
    Unwrap,
    Usize,
    Param,
    Val,
    Uninitialized,
    ParamId,
    Move,
    RequireGrad,
    Zeros,
    False,
    Abs,
    Neg,
    Exp,
    Log,
    Add,
    Sub,
    Mul,
    Div,
    F32,
    I64,
    BoolType,
}

impl Word {
    /// The text of the word.
    pub open spec fn text(self) -> Seq<char> {
        match self {
            Word::Use => "use"@,
            Word::Burn => "burn"@,
            Word::ModulePath => "module"@,
            Word::Module => "Module"@,
            Word::TensorPath => "tensor"@,
            Word::BackendPath => "backend"@,
            Word::Backend => "Backend"@,
            Word::Tensor => "Tensor"@,
            Word::Int => "Int"@,
            Word::Bool => "Bool"@,
            Word::Derive => "derive"@,
            Word::Debug => "Debug"@,
            Word::Pub => "pub"@,
            Word::Struct => "struct"@,
            Word::Model => "Model"@,
            Word::B => "B"@,
            Word::Phantom => "phantom"@,
            Word::Core => "core"@,
            Word::Marker => "marker"@,
            Word::PhantomData => "PhantomData"@,
            Word::DeviceValue => "device"@,
            Word::Ignored => "Ignored"@,
            Word::Device => "Device"@,
            Word::Impl => "impl"@,
            Word::Allow => "allow"@,
            Word::UnusedVariables => "unused_variables"@,
            Word::Fn => "fn"@,
            Word::New => "new"@,
            Word::SelfType => "Self"@,
            Word::Clone => "clone"@,
            Word::Clippy => "clippy"@,
            Word::LetAndReturn => "let_and_return"@,
            Word::ApproxConstant => "approx_constant"@,
            Word::Forward => "forward"@,
            Word::SelfValue => "self"@,
            Word::Let => "let"@,
            Word::Expand => "expand"@,
            Word::TryInto => "TryInto"@,
            Word::IntElem => "IntElem"@,
            Word::TryIntoCall => "try_into"@,
            Word::ToData => "to_data"@,
            Word::AsSlice => "as_slice"@,
            Word::Unwrap => "unwrap"@,
            Word::Usize => "usize"@,
            Word::Param => "Param"@,
            Word::Val => "val"@,
            Word::Uninitialized => "uninitialized"@,
            Word::ParamId => "ParamId"@,
            Word::Move => "move"@,
            Word::RequireGrad => "_require_grad"@,
            Word::Zeros => "zeros"@,
            Word::False => "false"@,
            Word::Abs => "abs"@,
            Word::Neg => "neg"@,
            Word::Exp => "exp"@,
            Word::Log => "log"@,
            Word::Add => "add"@,
            Word::Sub => "sub"@,
            Word::Mul => "mul"@,
            Word::Div => "div"@,
            Word::F32 => "f32"@,
            Word::I64 => "i64"@,
            Word::BoolType => "bool"@,
        }
    }
}

/// Appends `word` to `stream`.
pub(crate) fn push_word(stream: &mut TokenStream, word: Word)
    ensures
        stream_tokens(*final(stream)) == stream_tokens(*old(stream)).push(Token::Ident(word.text())),
{
    match word {
        Word::Use => {
            proof {
                reveal_strlit("use");
            }
            push_ident(stream, "use");
        },
        Word::Burn => {
            proof {
                reveal_strlit("burn");
            }
            push_ident(stream, "burn");
        },
        Word::ModulePath => {
            proof {
                reveal_strlit("module");
            }
            push_ident(stream, "module");
        },
        Word::Module => {
            proof {
                reveal_strlit("Module");
            }
            push_ident(stream, "Module");
        },
        Word::TensorPath => {
            proof {
                reveal_strlit("tensor");
            }
            push_ident(stream, "tensor");
        },
        Word::BackendPath => {
            proof {
                reveal_strlit("backend");
            }
            push_ident(stream, "backend");
        },
        Word::Backend => {
            proof {
                reveal_strlit("Backend");
            }
            push_ident(stream, "Backend");
        },
        Word::Tensor => {
            proof {
                reveal_strlit("Tensor");
            }
            push_ident(stream, "Tensor");
        },
        Word::Int => {
            proof {
                reveal_strlit("Int");
            }
            push_ident(stream, "Int");
        },
        Word::Bool => {
            proof {
                reveal_strlit("Bool");
            }
            push_ident(stream, "Bool");
        },
        Word::Derive => {
            proof {
                reveal_strlit("derive");
            }
            push_ident(stream, "derive");
        },
        Word::Debug => {
            proof {
                reveal_strlit("Debug");
            }
            push_ident(stream, "Debug");
        },
        Word::Pub => {
            proof {
                reveal_strlit("pub");
            }
            push_ident(stream, "pub");
        },
        Word::Struct => {
            proof {
                reveal_strlit("struct");
            }
            push_ident(stream, "struct");
        },
        Word::Model => {
            proof {
                reveal_strlit("Model");
            }
            push_ident(stream, "Model");
        },
        Word::B => {
            proof {
                reveal_strlit("B");
            }
            push_ident(stream, "B");
        },
        Word::Phantom => {
            proof {
                reveal_strlit("phantom");
            }
            push_ident(stream, "phantom");
        },
        Word::Core => {
            proof {
                reveal_strlit("core");
            }
            push_ident(stream, "core");
        },
        Word::Marker => {
            proof {
                reveal_strlit("marker");
            }
            push_ident(stream, "marker");
        },
        Word::PhantomData => {
            proof {
                reveal_strlit("PhantomData");
            }
            push_ident(stream, "PhantomData");
        },
        Word::DeviceValue => {
            proof {
                reveal_strlit("device");
            }
            push_ident(stream, "device");
        },
        Word::Ignored => {
            proof {
                reveal_strlit("Ignored");
            }
            push_ident(stream, "Ignored");
        },
        Word::Device => {
            proof {
                reveal_strlit("Device");
            }
            push_ident(stream, "Device");
        },
        Word::Impl => {
            proof {
                reveal_strlit("impl");
            }
            push_ident(stream, "impl");
        },
        Word::Allow => {
            proof {
                reveal_strlit("allow");
            }
            push_ident(stream, "allow");
        },
        Word::UnusedVariables => {
            proof {
                reveal_strlit("unused_variables");
            }
            push_ident(stream, "unused_variables");
        },
        Word::Fn => {
            proof {
                reveal_strlit("fn");
            }
            push_ident(stream, "fn");
        },
        Word::New => {
            proof {
                reveal_strlit("new");
            }
            push_ident(stream, "new");
        },
        Word::SelfType => {
            proof {
                reveal_strlit("Self");
            }
            push_ident(stream, "Self");
        },
        Word::Clone => {
            proof {
                reveal_strlit("clone");
            }
            push_ident(stream, "clone");
        },
        Word::Clippy => {
            proof {
                reveal_strlit("clippy");
            }
            push_ident(stream, "clippy");
        },
        Word::LetAndReturn => {
            proof {
                reveal_strlit("let_and_return");
            }
            push_ident(stream, "let_and_return");
        },
        Word::ApproxConstant => {
            proof {
                reveal_strlit("approx_constant");
            }
            push_ident(stream, "approx_constant");
        },
        Word::Forward => {
            proof {
                reveal_strlit("forward");
            }
            push_ident(stream, "forward");
        },
        Word::SelfValue => {
            proof {
                reveal_strlit("self");
            }
            push_ident(stream, "self");
        },
        Word::Let => {
            proof {
                reveal_strlit("let");
            }
            push_ident(stream, "let");
        },
        Word::Expand => {
            proof {
                reveal_strlit("expand");
            }
            push_ident(stream, "expand");
        },
        Word::TryInto => {
            proof {
                reveal_strlit("TryInto");
            }
            push_ident(stream, "TryInto");
        },
        Word::IntElem => {
            proof {
                reveal_strlit("IntElem");
            }
            push_ident(stream, "IntElem");
        },
        Word::TryIntoCall => {
            proof {
                reveal_strlit("try_into");
            }
            push_ident(stream, "try_into");
        },
        Word::ToData => {
            proof {
                reveal_strlit("to_data");
            }
            push_ident(stream, "to_data");
        },
        Word::AsSlice => {
            proof {
                reveal_strlit("as_slice");
            }
            push_ident(stream, "as_slice");
        },
        Word::Unwrap => {
            proof {
                reveal_strlit("unwrap");
            }
            push_ident(stream, "unwrap");
        },
        Word::Usize => {
            proof {
                reveal_strlit("usize");
            }
            push_ident(stream, "usize");
        },
        Word::Param => {
            proof {
                reveal_strlit("Param");
            }
            push_ident(stream, "Param");
        },
        Word::Val => {
            proof {
                reveal_strlit("val");
            }
            push_ident(stream, "val");
        },
        Word::Uninitialized => {
            proof {
                reveal_strlit("uninitialized");
            }
            push_ident(stream, "uninitialized");
        },
        Word::ParamId => {
            proof {
                reveal_strlit("ParamId");
            }
            push_ident(stream, "ParamId");
        },
        Word::Move => {
            proof {
                reveal_strlit("move");
            }
            push_ident(stream, "move");
        },
        Word::RequireGrad => {
            proof {
                reveal_strlit("_require_grad");
            }
            push_ident(stream, "_require_grad");
        },
        Word::Zeros => {
            proof {
                reveal_strlit("zeros");
            }
            push_ident(stream, "zeros");
        },
        Word::False => {
            proof {
                reveal_strlit("false");
            }
            push_ident(stream, "false");
        },
        Word::Abs => {
            proof {
                reveal_strlit("abs");
            }
            push_ident(stream, "abs");
        },
        Word::Neg => {
            proof {
                reveal_strlit("neg");
            }
            push_ident(stream, "neg");
        },
        Word::Exp => {
            proof {
                reveal_strlit("exp");
            }
            push_ident(stream, "exp");
        },
        Word::Log => {
            proof {
                reveal_strlit("log");
            }
            push_ident(stream, "log");
        },
        Word::Add => {
            proof {
                reveal_strlit("add");
            }
            push_ident(stream, "add");
        },
        Word::Sub => {
            proof {
                reveal_strlit("sub");
            }
            push_ident(stream, "sub");
        },
        Word::Mul => {
            proof {
                reveal_strlit("mul");
            }
            push_ident(stream, "mul");
        },
        Word::Div => {
            proof {
                reveal_strlit("div");
            }
            push_ident(stream, "div");
        },
        Word::F32 => {
            proof {
                reveal_strlit("f32");
            }
            push_ident(stream, "f32");
        },
        Word::I64 => {
            proof {
                reveal_strlit("i64");
            }
            push_ident(stream, "i64");
        },
        Word::BoolType => {
            proof {
                reveal_strlit("bool");
            }
            push_ident(stream, "bool");
        },
    }
}

} // verus!
