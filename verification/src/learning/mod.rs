pub mod grant_sizes;
