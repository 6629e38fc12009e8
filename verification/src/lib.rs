//! The core of an interactive terrain viewer whose heights come from an
//! erosion simulation: the topology of the terrain mesh, the camera
//! controller, the frame state machine of the render loop, and the exchange
//! through which the simulator hands its heights to the renderer.
//!
//! Nothing here touches a window or a graphics device. A driver owns those,
//! reports what happens, and performs the actions that the core answers with.

pub mod camera;
pub mod erosion;
pub mod heightfield;
pub mod mesh;
pub mod render_loop;
