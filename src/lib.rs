//! An evolutionary search engine: a population of genotypes is carried from
//! generation to generation by selection, crossover and mutation.
pub mod genotype;
pub mod population;
mod random;
pub mod selection;
pub mod simulator;
pub mod wheel;

pub use genotype::{GenoType, Inspector, PhenoType, Roulette};
pub use population::Population;
pub use selection::{FitnessProportionate, RankSelector, TournamentSelector};
pub use simulator::{BuildError, Probability, Simulator, SimulatorBuilder};
