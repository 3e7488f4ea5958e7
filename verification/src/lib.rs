//! Control plane of a sandbox orchestration service.
//!
//! A sandbox is a container with an agent in it. The server keeps the rows
//! of the sandboxes and of the workspaces that they mount, creates and
//! deletes containers, and talks to each agent over a stream of messages.
//! The agent runs commands and holds terminals.
//!
//! This library holds the rules of that service: what is decided, on which
//! grounds, and what follows. Calling the container engine, waiting, and
//! moving bytes is left to the program around it.
//!
//! - The domain: [`error`], [`sandbox`], [`workspace`], [`types`],
//!   [`config`], [`string_map`].
//! - The stores: [`store`], [`workspace_repository`], [`rows`].
//! - The agent stream, server side: [`proto`], [`agent_pool`], [`grpc`],
//!   [`channels`].
//! - The services: [`process`], [`pty_service`], [`sandbox_service`],
//!   [`workspace_service`], [`docker`], [`nfs`], [`paths`].
//! - The agent: [`agent_connection`], [`pty_manager`], [`executor`].
//! - The outer surfaces: [`api`].
//! - Helpers: [`strings`], [`numbers`], [`timefmt`], [`ids`].

pub mod agent_connection;
pub mod agent_pool;
pub mod api;
pub mod channels;
pub mod config;
pub mod docker;
pub mod error;
pub mod executor;
pub mod grpc;
pub mod ids;
pub mod nfs;
pub mod numbers;
pub mod paths;
pub mod process;
pub mod proto;
pub mod pty_manager;
pub mod pty_service;
pub mod rows;
pub mod sandbox;
pub mod sandbox_service;
pub mod store;
pub mod string_map;
pub mod strings;
pub mod timefmt;
pub mod types;
pub mod workspace;
pub mod workspace_repository;
pub mod workspace_service;
