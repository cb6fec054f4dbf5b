//! The settings of a training run.

use vstd::prelude::*;
use burn::optim::AdamConfig;

verus! {

/// `burn::optim::AdamConfig`: the learning rate, the moment parameters and
/// the weight decay of the optimizer.
#[verifier::external_type_specification]
#[verifier::external_body]
pub struct ExAdamConfig(AdamConfig);

/// Passes over the training data, unless said otherwise.
pub const DEFAULT_EPOCHS: usize = 2;

/// Examples per batch, unless said otherwise.
pub const DEFAULT_BATCH_SIZE: usize = 64;

/// Workers that prepare batches, unless said otherwise.
pub const DEFAULT_WORKERS: usize = 8;

/// Seed of the random number generator, unless said otherwise.
pub const DEFAULT_SEED: u64 = 42;

/// The settings of a training run. They are fixed once the run starts.
pub struct MnistConfig {
    /// Passes over the training data.
    pub num_epochs: usize,
    /// Examples per batch.
    pub batch_size: usize,
    /// Workers that prepare batches.
    pub num_workers: usize,
    /// Seed of the random number generator.
    pub seed: u64,
    /// Settings of the optimizer.
    pub optimizer: AdamConfig,
}

impl MnistConfig {
    /// The default settings, with the given optimizer.
    pub fn new(optimizer: AdamConfig) -> (config: Self)
        ensures
            config.num_epochs == DEFAULT_EPOCHS,
            config.batch_size == DEFAULT_BATCH_SIZE,
            config.num_workers == DEFAULT_WORKERS,
            config.seed == DEFAULT_SEED,
            config.optimizer == optimizer,
    {
        MnistConfig {
            num_epochs: DEFAULT_EPOCHS,
            batch_size: DEFAULT_BATCH_SIZE,
            num_workers: DEFAULT_WORKERS,
            seed: DEFAULT_SEED,
            optimizer,
        }
    }

    /// The same settings with another number of epochs.
    pub fn with_num_epochs(self, num_epochs: usize) -> (config: Self)
        ensures
            config == (MnistConfig { num_epochs, ..self }),
    {
        MnistConfig { num_epochs, ..self }
    }

    /// The same settings with another batch size.
    pub fn with_batch_size(self, batch_size: usize) -> (config: Self)
        ensures
            config == (MnistConfig { batch_size, ..self }),
    {
        MnistConfig { batch_size, ..self }
    }

    /// The same settings with another number of workers.
    pub fn with_num_workers(self, num_workers: usize) -> (config: Self)
        ensures
            config == (MnistConfig { num_workers, ..self }),
    {
        MnistConfig { num_workers, ..self }
    }

    /// The same settings with another seed.
    pub fn with_seed(self, seed: u64) -> (config: Self)
        ensures
            config == (MnistConfig { seed, ..self }),
    {
        MnistConfig { seed, ..self }
    }
}

} // verus!
