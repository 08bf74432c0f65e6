//! Decision core of a copy-trading daemon.

pub mod acceptance;
pub mod canary;
pub mod checks;
pub mod config;
pub mod contract;
pub mod decimal;
pub mod dispatch;
pub mod domain;
pub mod evidence;
pub mod follow;
pub mod intent;
pub mod leaders;
pub mod ledger;
pub mod margin;
pub mod market;
pub mod merge;
pub mod options;
pub mod partition;
pub mod pipeline;
pub mod plan;
pub mod reconcile;
pub mod recovery;
pub mod rehearse;
pub mod round;
pub mod select;
pub mod seqs;
pub mod shadow;
pub mod soak;
pub mod sorted;
pub mod submit;
pub mod supervisor;
pub mod tally;
pub mod text;
pub mod trial;
pub mod watch;
pub mod window;
