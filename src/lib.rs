//! Procedural level generation and an energy-gated turn engine for a
//! terminal roguelike, with their behaviour stated as contracts.
pub mod rect;
pub mod rng;
pub mod tile;
pub mod tile_grid;
pub mod map;
pub mod gamelogic;
pub mod component;
pub mod builders;
pub mod initial;
pub mod meta;
pub mod sort;
pub mod chain;
pub mod worldgen;
pub mod turn;
pub mod config;
pub mod action;
pub mod cli;
pub mod states;
pub mod player;
pub mod world;
pub mod camera;
pub mod menu;
