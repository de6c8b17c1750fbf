//! One module per AWS service that the explorer reads.
pub mod dynamodb;
pub mod cloudfront;
pub mod ec2;
pub mod cloudformation;
pub mod databrew;
pub mod codebuild;
pub mod cloudwatch;
pub mod cloudtrail;
pub mod bedrock_agent;
pub mod documentdb;
pub mod cloudtraildata;
pub mod detective;
pub mod configservice;
pub mod connect;
pub mod codepipeline;
pub mod datasync;
pub mod codedeploy;
pub mod codecommit;
pub mod codeartifact;
pub mod cognito;
pub mod bedrockagentcore_data;
pub mod bedrockagentcore_control;
