// The execution core of a small stack-based script virtual machine.
pub mod lua;
pub mod machdef;
pub mod objdef;
pub mod objtrait;
pub mod objtype;
pub mod statedef;
