//! Route editing domain of a cycling-route planner: coordinates, segments,
//! edit operations with undo/redo, route search queries, users and
//! permissions, authentication bookkeeping, routing-service addresses and
//! SRTM elevation tiles, with their contracts proved by Verus.
pub mod error;
pub mod text;
pub mod types;
pub mod values;
pub mod coordinate;
pub mod segment;
pub mod operation;
pub mod segment_list;
pub mod user;
pub mod route_info;
pub mod route;
pub mod laws;
pub mod search_query;
pub mod permission;
pub mod responses;
pub mod waypoint_edit;
pub mod reserved;
pub mod srtm;
pub mod auth;
pub mod osrm;
pub mod dto;
pub mod route_gpx;
pub mod route_usecase;
