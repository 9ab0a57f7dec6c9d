//! The verified core of a skill marketplace combined with a job board:
//! the checks on listings, orders, reviews and registrations, entity ids,
//! sessions and OAuth sign-in, and the platform fee.
pub mod auth;
pub mod career_agent_programs;
pub mod categories;
pub mod ids;
pub mod job_listings;
pub mod oauth;
pub mod orders;
pub mod rejection;
pub mod reviews;
pub mod services;
pub mod stripe_connect;
pub mod text;
