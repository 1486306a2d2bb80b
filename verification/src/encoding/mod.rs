//! Encoding and decoding of RV32IF instruction words.
pub mod args;
pub mod assembly;
pub mod bitfields;
pub mod instruction;
pub mod layout;

pub use args::{AuipcArgs, JalArgs, LuiArgs, FmsubSArgs, FnmsubSArgs, FnmaddSArgs, FmaddSArgs, SbArgs, LwArgs, BgeArgs, BneArgs, LbuArgs, BltuArgs, CsrrwArgs, XoriArgs, AndiArgs, SwArgs, CsrrsArgs, ShArgs, SltiuArgs, LbArgs, LhArgs, CsrrwiArgs, SltiArgs, CsrrcArgs, LhuArgs, FswArgs, AddiArgs, BltArgs, BgeuArgs, CsrrsiArgs, CsrrciArgs, JalrArgs, FlwArgs, BeqArgs, OriArgs, FdivSArgs, FsubSArgs, FaddSArgs, FmulSArgs, SraiArgs, FeqSArgs, AddArgs, SlliArgs, SltuArgs, FsgnjxSArgs, FltSArgs, FsgnjSArgs, FmaxSArgs, FsgnjnSArgs, FminSArgs, XorArgs, SrliArgs, SltArgs, SubArgs, SllArgs, SrlArgs, SraArgs, FleSArgs, AndArgs, OrArgs, FcvtWuSArgs, FcvtSWArgs, FcvtSWuArgs, FsqrtSArgs, FcvtWSArgs, FmvXWArgs, FmvWXArgs, FclassSArgs, EcallArgs, EbreakArgs};
pub use instruction::Instruction;
