pub mod async_;
pub mod channel;
pub mod fold;
pub mod fork;
pub mod input;
pub mod lift;
pub mod lift2;
pub mod value;

pub use self::fold::FoldSignal;
pub use self::lift::LiftSignal;
pub use self::lift2::Lift2Signal;
pub use self::value::Value;
