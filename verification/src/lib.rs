//! A render-object registry for wgpu.
//!
//! An [`Output`](output::Output) keeps, for one render target, the compiled
//! shader variants and the ordered list of object classes, and records one
//! frame's commands into a render pass with as few pipeline changes as the
//! order of the classes allows.
//!
//! The registry is verified with Verus. What a frame consists of is defined
//! in [`output::command`] as a function of what the registry holds;
//! [`output::laws`] proves what holds of every frame; [`output::gpu`] is the
//! only module that calls wgpu, and states what is taken on trust there.

pub mod output;
