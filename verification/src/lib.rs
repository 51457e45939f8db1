use vstd::prelude::*;

pub mod text;
pub mod auth;
pub mod session;
pub mod client;
pub mod model;
pub mod seqs;
pub mod patch;
pub mod series;
pub mod order;
pub mod sorting;
pub mod health;
pub mod panels;
pub mod vizmodel;
pub mod geometry;
pub mod eligible;
pub mod drive;
pub mod fab;
pub mod live;
pub mod quant8;
pub mod topology;
pub mod roster;
pub mod desktop;
pub mod signin;
pub mod network;
pub mod deck;
pub mod explorer;
pub mod search;
pub mod shell;
pub mod board;
pub mod picker;
pub mod cards;

verus! {

} // verus!
