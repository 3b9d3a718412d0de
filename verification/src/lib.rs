//! zapret-rust: a terminal front end for zapret's `nfqws` on Linux, as a
//! verified library.
//!
//! The library holds the logic: the configuration file, the strategy
//! scripts and the nfqws command line built from them, the firewall rules,
//! the ipset modes, the init-system service plans, the autotune's course, verdicts and
//! report, and the interactive menu as a state machine with its views. Every
//! function states what it returns in its contract, and the laws that tie
//! operations together (what a written file reads back as, what a key undoes,
//! what every operation keeps) are proof functions. Work on the outside
//! world (files, processes, the network, the terminal) is the caller's: the
//! library takes what it read and hands back what to do.
pub mod text;
pub mod order;
pub mod config;
pub mod strategy;
pub mod runner;
pub mod autotune;
pub mod ipset;
pub mod firewalls;
pub mod menus;
pub mod state;
pub mod actions;
pub mod outcomes;
pub mod tuning;
pub mod autorun;
pub mod report;
pub mod services;
pub mod fakes;
pub mod nftables;
pub mod discovery;
pub mod download;
pub mod logger;
pub mod views;
