//! A verified single-locus, two-allele population-genetics simulation.
//!
//! The library models the evolution of allele frequencies for the
//! sickle-cell locus (alleles `A` and `S`) under heterozygote advantage:
//! each generation the gamete pool is randomly paired into genotypes,
//! a survival policy is applied per genotype, and the surviving pool is
//! renormalized back to a fixed size from its integer percentage summary.

pub mod allele;
pub mod encoder;
pub mod engine;
pub mod rng;
pub mod sampler;
pub mod selection;
