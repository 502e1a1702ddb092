pub mod addr;
pub mod hexenc;
pub mod orchestrate;
pub mod scaffold;
pub mod simulate;
pub mod submit;
