use openapi_lambda::arn::LambdaArn;

#[test]
fn cloud_formation_arn_is_substituted() {
    let arn = LambdaArn::cloud_formation("MyApiFunction.Alias").apigw_invocation_arn();
    assert_eq!(
        arn.text,
        "arn:aws:apigateway:${AWS::Region}:lambda:path/2015-03-31/functions/${MyApiFunction.Alias}/invocations"
    );
    assert!(arn.substituted);
}
