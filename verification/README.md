# resource_explorer

The core of an AWS resource explorer: it turns what AWS reports about the
resources of an account (EC2, DynamoDB, CloudFront, CloudFormation,
CloudWatch, CloudTrail, Bedrock, Cognito and a dozen more services) into JSON
documents, and decides what to ask AWS next (pages, lookups, fallbacks).

## Layout

- `src/` is the library, written in Verus and verified:
  - `json.rs`: JSON values and their mathematical model (an object is a map
    in which a later binding of a key wins);
  - `timestamp.rs`: instants, and their RFC 3339 and display texts;
  - `text.rs`, `order.rs`: the text operations and the string order that the
    services use;
  - `services/`: one module per AWS service, each with the service's data as
    plain structs and a contract for every conversion and decision.
- `tests/` runs the library on concrete values.
- `app/` is the I/O edge: it reads through the AWS SDKs, converts their types
  to the library's, and renders the library's JSON as `serde_json` values.
