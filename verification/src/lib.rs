//! Verified core of a school task exchange: pupils publish tasks, open
//! per-subject slots that accept other pupils' tasks, and the library decides
//! what the service answers.

pub mod dto;
pub mod errors;
pub mod ids;
pub mod mail;
pub mod ordering;
pub mod registration;
pub mod signin;
pub mod slot;
pub mod slots_component;
pub mod subjects;
pub mod task;
pub mod tasks_component;
pub mod text;
pub mod time;
pub mod transaction;
pub mod user;
pub mod verification;
