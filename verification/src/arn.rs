//! Names of the functions that serve an API, and the builders that say which
//! function serves which module.
use vstd::prelude::*;
use vstd::string::*;
use crate::ir::{CompileError, CompileErrorKind, CompileErrorView};
use crate::model::error;
use crate::text::{concat2, concat3, str_eq};

verus! {

#[derive(Debug)]
enum LambdaArnImpl {
    /// A logical id that the deployment tool resolves when it deploys.
    CloudFormation { logical_id: String },
    /// A name that is known in full.
    Known {
        api_gateway_region: String,
        account_id: String,
        function_region: String,
        function_name: String,
        alias_or_version: Option<String>,
    },
}

/// The resource name of a function: either through a logical id of the
/// deployment template (see `cloud_formation`) or in full (see `known`).
#[derive(Debug)]
pub struct LambdaArn(LambdaArnImpl);

pub enum LambdaArnView {
    CloudFormation { logical_id: Seq<char> },
    Known {
        api_gateway_region: Seq<char>,
        account_id: Seq<char>,
        function_region: Seq<char>,
        function_name: Seq<char>,
        alias_or_version: Option<Seq<char>>,
    },
}

impl DeepView for LambdaArnImpl {
    type V = LambdaArnView;

    closed spec fn deep_view(&self) -> LambdaArnView {
        match *self {
            LambdaArnImpl::CloudFormation { logical_id } => LambdaArnView::CloudFormation {
                logical_id: logical_id@,
            },
            LambdaArnImpl::Known {
                api_gateway_region,
                account_id,
                function_region,
                function_name,
                alias_or_version,
            } => LambdaArnView::Known {
                api_gateway_region: api_gateway_region@,
                account_id: account_id@,
                function_region: function_region@,
                function_name: function_name@,
                alias_or_version: alias_or_version.deep_view(),
            },
        }
    }
}

impl DeepView for LambdaArn {
    type V = LambdaArnView;

    closed spec fn deep_view(&self) -> LambdaArnView {
        self.0.deep_view()
    }
}

/// The address under which the gateway invokes a function, and whether the
/// deployment tool has to substitute variables in it.
pub open spec fn invocation_arn(arn: LambdaArnView) -> (Seq<char>, bool) {
    match arn {
        LambdaArnView::CloudFormation { logical_id } => (
            "arn:aws:apigateway:${AWS::Region}:lambda:path/2015-03-31/functions/${"@ + logical_id
                + "}/invocations"@,
            true,
        ),
        LambdaArnView::Known {
            api_gateway_region,
            account_id,
            function_region,
            function_name,
            alias_or_version,
        } => (
            "arn:aws:apigateway:"@ + api_gateway_region
                + ":lambda:path/2015-03-31/functions/arn:aws:lambda:"@ + function_region + ":"@
                + account_id + ":function:"@ + function_name + match alias_or_version {
                Some(alias) => ":"@ + alias,
                None => Seq::empty(),
            } + "/invocations"@,
            false,
        ),
    }
}

/// The address under which the gateway invokes a function.
#[derive(Debug, PartialEq, Eq)]
pub struct InvocationArn {
    pub text: String,
    /// Whether the deployment tool substitutes variables in `text`.
    pub substituted: bool,
}

impl DeepView for InvocationArn {
    type V = (Seq<char>, bool);

    open spec fn deep_view(&self) -> (Seq<char>, bool) {
        (self.text@, self.substituted)
    }
}

impl LambdaArnImpl {
    /// The address under which the gateway invokes the function.
    pub fn apigw_invocation_arn(&self) -> (r: InvocationArn)
        ensures
            r.deep_view() == invocation_arn(self.deep_view()),
    {
        match self {
            LambdaArnImpl::CloudFormation { logical_id } => InvocationArn {
                text: concat3(
                    "arn:aws:apigateway:${AWS::Region}:lambda:path/2015-03-31/functions/${",
                    logical_id.as_str(),
                    "}/invocations",
                ),
                substituted: true,
            },
            LambdaArnImpl::Known {
                api_gateway_region,
                account_id,
                function_region,
                function_name,
                alias_or_version,
            } => {
                let a = concat3(
                    "arn:aws:apigateway:",
                    api_gateway_region.as_str(),
                    ":lambda:path/2015-03-31/functions/arn:aws:lambda:",
                );
                let b = concat3(a.as_str(), function_region.as_str(), ":");
                let c = concat3(b.as_str(), account_id.as_str(), ":function:");
                let d = concat2(c.as_str(), function_name.as_str());
                let e = match alias_or_version {
                    Some(alias) => concat3(d.as_str(), ":", alias.as_str()),
                    None => d,
                };
                let text = concat2(e.as_str(), "/invocations");
                proof {
                    let expected = invocation_arn(self.deep_view()).0;
                    assert(text@ =~= expected);
                }
                InvocationArn { text, substituted: false }
            },
        }
    }
}

impl LambdaArn {
    /// The name of a function through the logical id that it, its alias or
    /// its version has in the deployment template. The deployment tool
    /// resolves it when it deploys.
    pub fn cloud_formation(logical_id: &str) -> (r: Self)
        ensures
            r.deep_view() == (LambdaArnView::CloudFormation { logical_id: logical_id@ }),
    {
        LambdaArn(LambdaArnImpl::CloudFormation { logical_id: String::from_str(logical_id) })
    }

    /// The name of a function in full: the region of the gateway, the account
    /// and the region of the function, its name and, if it is to be pinned,
    /// its alias or version.
    pub fn known(
        api_gateway_region: &str,
        account_id: &str,
        function_region: &str,
        function_name: &str,
        alias_or_version: Option<String>,
    ) -> (r: Self)
        ensures
            r.deep_view() == (LambdaArnView::Known {
                api_gateway_region: api_gateway_region@,
                account_id: account_id@,
                function_region: function_region@,
                function_name: function_name@,
                alias_or_version: alias_or_version.deep_view(),
            }),
    {
        LambdaArn(
            LambdaArnImpl::Known {
                api_gateway_region: String::from_str(api_gateway_region),
                account_id: String::from_str(account_id),
                function_region: String::from_str(function_region),
                function_name: String::from_str(function_name),
                alias_or_version,
            },
        )
    }

    /// The address under which the gateway invokes the function.
    pub fn apigw_invocation_arn(&self) -> (r: InvocationArn)
        ensures
            r.deep_view() == invocation_arn(self.deep_view()),
    {
        self.0.apigw_invocation_arn()
    }
}

/// One deployable unit: the module that is generated for it and the function
/// that serves it.
#[derive(Debug)]
pub struct ApiLambda {
    pub mod_name: String,
    pub lambda_arn: LambdaArn,
}

impl ApiLambda {
    /// A deployable unit named `mod_name`, served by the function `lambda_arn`.
    pub fn new(mod_name: &str, lambda_arn: LambdaArn) -> (r: Self)
        ensures
            r.mod_name@ == mod_name@,
            r.lambda_arn.deep_view() == lambda_arn.deep_view(),
    {
        ApiLambda { mod_name: String::from_str(mod_name), lambda_arn }
    }
}

/// The generator's settings: the document it reads, the directory it writes
/// to, and the deployable units, whose module names are distinct.
#[derive(Debug)]
pub struct CodeGenerator {
    pub api_lambdas: Vec<ApiLambda>,
    pub openapi_path: String,
    pub out_dir: String,
}

/// The module names of the deployable units, in order.
pub open spec fn module_names(lambdas: Seq<ApiLambda>) -> Seq<Seq<char>> {
    Seq::new(lambdas.len(), |i: int| lambdas[i].mod_name@)
}

impl CodeGenerator {
    /// A generator that reads the document at `openapi_path` and writes to
    /// `out_dir`, so far without deployable units.
    pub fn new(openapi_path: &str, out_dir: &str) -> (r: Self)
        ensures
            r.api_lambdas@.len() == 0,
            r.openapi_path@ == openapi_path@,
            r.out_dir@ == out_dir@,
    {
        CodeGenerator {
            api_lambdas: Vec::new(),
            openapi_path: String::from_str(openapi_path),
            out_dir: String::from_str(out_dir),
        }
    }

    /// Adds a deployable unit. Module names must be unique: a name that a unit
    /// of the generator has already is an error.
    pub fn add_api_lambda(self, builder: ApiLambda) -> (res: Result<Self, CompileError>)
        ensures
            module_names(self.api_lambdas@).contains(builder.mod_name@) ==> res is Err
                && res->Err_0.deep_view() == (CompileErrorView {
                kind: CompileErrorKind::DuplicateModule,
                subject: builder.mod_name@,
            }),
            !module_names(self.api_lambdas@).contains(builder.mod_name@) ==> res is Ok
                && res->Ok_0.api_lambdas@ == self.api_lambdas@.push(builder)
                && res->Ok_0.openapi_path@ == self.openapi_path@ && res->Ok_0.out_dir@
                == self.out_dir@,
    {
        let mut i: usize = 0;
        while i < self.api_lambdas.len()
            invariant
                i <= self.api_lambdas.len(),
                forall|j: int|
                    0 <= j < i ==> (#[trigger] module_names(self.api_lambdas@)[j])
                        != builder.mod_name@,
            decreases self.api_lambdas.len() - i,
        {
            if str_eq(self.api_lambdas[i].mod_name.as_str(), builder.mod_name.as_str()) {
                assert(module_names(self.api_lambdas@)[i as int] == builder.mod_name@);
                return Err(error(CompileErrorKind::DuplicateModule, builder.mod_name.as_str()));
            }
            assert(module_names(self.api_lambdas@)[i as int] == self.api_lambdas[i as int].mod_name@);
            i += 1;
        }
        let CodeGenerator { api_lambdas, openapi_path, out_dir } = self;
        let mut api_lambdas = api_lambdas;
        api_lambdas.push(builder);
        Ok(CodeGenerator { api_lambdas, openapi_path, out_dir })
    }
}

} // verus!
