//! Resolution logic for a three-die skill check: three twenty-sided dice are
//! rolled against three attribute scores, a shared pool of skill points pays
//! for rolls that exceed their attribute (adjusted by a situational modifier),
//! and the outcome is classified into a tagged result with a quality tier.
//! A companion estimator enumerates the whole sample space of die triples and
//! counts how often each quality tier is reached.

pub mod chance;
pub mod rolls;
