pub mod conv_batchnorm;
