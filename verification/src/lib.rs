//! Frame pacing and GPU resource coordination for a vsync-driven rendering
//! surface: a pool of reusable vertex buffers, the rotation of three
//! presentation buffers, the bookkeeping around GPU completion fences and the
//! prediction of the next vsync from presentation feedback. Beside them stand
//! the caches that spare the scripted callbacks for titles and status their
//! work.
//!
//! Every operation that depends on the time takes the current clock reading
//! as an argument, so that each one is a function of its inputs alone. The
//! graphics driver is not called from here: the fence manager is told what
//! the driver answered.

pub mod bufferpool;
pub mod cachekey;
pub mod callback_cache;
pub mod clock;
pub mod counter;
pub mod gpufence;
pub mod graphemes;
pub mod lua_ser_cache;
pub mod presentation;
pub mod tab_title_cache;
pub mod tabinfo;
pub mod text;
pub mod titletext;
pub mod triplebuffer;
