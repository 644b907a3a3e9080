//! The decisions of one run of the generator that stand between its passes:
//! which models a document gives, which deployable unit serves which
//! operation, and what the gateway is told of it.
use vstd::prelude::*;
use vstd::string::*;
use crate::arn::{invocation_arn, ApiLambda, InvocationArn};
use crate::document::{Components, ComponentsView, OpenApi, OpenApiView};
use crate::ir::{CompileError, CompileErrorKind, CompileErrorView, CompiledType, CompiledTypeView};
use crate::model::{agrees, error, generate_components, push_item};
use crate::model_spec::{fail, generated_components};
use crate::module::{
    arranged, check_operation_ids, first_duplicate, gen_api_module, module_plan, operation_keys,
    ModulePlan, ModulePlanView, PathOperation, PathOperationView,
};
use crate::naming_document::visit_openapi;
use crate::naming_spec::named_document;
use crate::order::{is_sorted_order, sorted_order, sorted_positions};

verus! {

/// A document with every schema that needs a type named, and the models of
/// its shared schemas.
pub open spec fn generated_models(openapi: OpenApiView) -> Result<
    (OpenApiView, Seq<CompiledTypeView>),
    CompileErrorView,
> {
    match named_document(openapi) {
        Err(e) => Err(e),
        Ok(named) => match generated_components(named.components->0.schemas, 0, Seq::empty()) {
            Err(e) => Err(e),
            Ok(models) => Ok((named, models)),
        },
    }
}

/// Names every schema of a document that needs a type, and compiles the
/// shared schemas of the document into models.
pub fn generate_models(openapi: &OpenApi) -> (res: Result<(OpenApi, Vec<CompiledType>), CompileError>)
    ensures
        agrees(res, generated_models(openapi.deep_view())),
{
    let named = match visit_openapi(openapi) {
        Err(e) => {
            return Err(e);
        },
        Ok(named) => named,
    };
    let made = match &named.components {
        Some(components) => generate_components(&components.schemas),
        None => {
            let empty: Vec<(String, crate::schema::SchemaRef)> = Vec::new();
            generate_components(&empty)
        },
    };
    match made {
        Err(e) => Err(e),
        Ok(models) => Ok((named, models)),
    }
}

/// The identifiers of a list of models, as keys.
pub open spec fn model_keys(models: Seq<CompiledTypeView>) -> Seq<Option<Seq<char>>> {
    Seq::new(models.len(), |i: int| Some(models[i].ident))
}

/// The order in which models are written: by identifier.
pub fn model_order(models: &Vec<CompiledType>) -> (order: Vec<usize>)
    ensures
        order@ == sorted_positions(model_keys(models.deep_view())),
        is_sorted_order(model_keys(models.deep_view()), order@),
{
    let mut keys: Vec<Option<String>> = Vec::new();
    let mut k: usize = 0;
    while k < models.len()
        invariant
            k <= models.len(),
            keys.deep_view() == model_keys(models.deep_view()).take(k as int),
        decreases models.len() - k,
    {
        let key = Some(models[k].ident.clone());
        assert(key.deep_view() == model_keys(models.deep_view())[k as int]);
        push_item(&mut keys, key);
        assert(keys.deep_view() =~= model_keys(models.deep_view()).take(k as int + 1));
        k += 1;
    }
    assert(keys.deep_view() =~= model_keys(models.deep_view()));
    sorted_order(&keys)
}

/// Whether the deployable unit `unit` claims the operation `operation`:
/// `claims` holds, unit by unit, what the unit's filter says of each
/// operation. An operation of which a unit says nothing is not claimed by it.
pub open spec fn claims_it(claims: Seq<Seq<bool>>, unit: int, operation: int) -> bool {
    0 <= unit < claims.len() && 0 <= operation < claims[unit].len() && claims[unit][operation]
}

/// The first deployable unit from `from` on that claims the operation; the
/// number of units where none does.
pub open spec fn first_claim(claims: Seq<Seq<bool>>, from: int, operation: int) -> int
    decreases claims.len() - from,
{
    if from < 0 || from >= claims.len() {
        claims.len() as int
    } else if claims_it(claims, from, operation) {
        from
    } else {
        first_claim(claims, from + 1, operation)
    }
}

/// The deployable unit that serves one operation: the one unit that claims
/// it, if any does. An operation that two units claim is an error, and so is
/// a claimed operation without an operation id.
pub open spec fn assigned(claims: Seq<Seq<bool>>, operation: PathOperationView, at: int) -> Result<
    Option<usize>,
    CompileErrorView,
> {
    let first = first_claim(claims, 0, at);
    if first >= claims.len() {
        Ok(None)
    } else if first_claim(claims, first + 1, at) < claims.len() {
        fail(CompileErrorKind::EndpointClaimedTwice, operation.request_path)
    } else if operation.op.operation_id is None {
        fail(CompileErrorKind::MissingOperationId, operation.request_path)
    } else {
        Ok(Some(first as usize))
    }
}

/// The deployable units that serve the operations from `from` on, after
/// `acc`.
pub open spec fn assignments(
    claims: Seq<Seq<bool>>,
    operations: Seq<PathOperationView>,
    from: int,
    acc: Seq<Option<usize>>,
) -> Result<Seq<Option<usize>>, CompileErrorView>
    decreases operations.len() - from,
{
    if from < 0 || from >= operations.len() {
        Ok(acc)
    } else {
        match assigned(claims, operations[from], from) {
            Err(e) => Err(e),
            Ok(unit) => assignments(claims, operations, from + 1, acc.push(unit)),
        }
    }
}

/// Finds the first deployable unit from `from` on that claims an operation.
fn find_claim(claims: &Vec<Vec<bool>>, from: usize, operation: usize) -> (r: usize)
    requires
        from <= claims.len(),
    ensures
        r == first_claim(claims.deep_view(), from as int, operation as int),
        from <= r <= claims.len(),
{
    let mut unit: usize = from;
    while unit < claims.len()
        invariant
            from <= unit <= claims.len(),
            first_claim(claims.deep_view(), from as int, operation as int) == first_claim(
                claims.deep_view(),
                unit as int,
                operation as int,
            ),
        decreases claims.len() - unit,
    {
        assert(claims.deep_view()[unit as int] =~= claims[unit as int]@);
        if operation < claims[unit].len() && claims[unit][operation] {
            return unit;
        }
        unit += 1;
    }
    unit
}

/// Says for every operation which deployable unit serves it. `claims` holds,
/// unit by unit, what the filter of the unit says of each operation; a unit
/// without a filter claims every operation. No operation may be claimed by
/// two units, and a claimed operation must have an operation id.
#[verifier::loop_isolation(false)]
pub fn assign_operations(operations: &Vec<PathOperation>, claims: &Vec<Vec<bool>>) -> (res: Result<
    Vec<Option<usize>>,
    CompileError,
>)
    ensures
        match assignments(claims.deep_view(), operations.deep_view(), 0, Seq::empty()) {
            Ok(units) => res is Ok && res->Ok_0@ == units,
            Err(e) => res is Err && res->Err_0.deep_view() == e,
        },
{
    let mut out: Vec<Option<usize>> = Vec::new();
    let mut i: usize = 0;
    while i < operations.len()
        invariant
            i <= operations.len(),
            assignments(claims.deep_view(), operations.deep_view(), 0, Seq::empty())
                == assignments(claims.deep_view(), operations.deep_view(), i as int, out@),
        decreases operations.len() - i,
    {
        assert(operations.deep_view()[i as int] == operations[i as int].deep_view());
        let first = find_claim(claims, 0, i);
        if first >= claims.len() {
            out.push(None);
        } else if find_claim(claims, first + 1, i) < claims.len() {
            return Err(
                error(CompileErrorKind::EndpointClaimedTwice, operations[i].request_path.as_str()),
            );
        } else if operations[i].op.operation_id.is_none() {
            return Err(
                error(CompileErrorKind::MissingOperationId, operations[i].request_path.as_str()),
            );
        } else {
            out.push(Some(first));
        }
        i += 1;
    }
    Ok(out)
}

/// The module names of the deployable units, as keys.
pub open spec fn unit_keys(lambdas: Seq<ApiLambda>) -> Seq<Option<Seq<char>>> {
    Seq::new(lambdas.len(), |i: int| Some(lambdas[i].mod_name@))
}

/// The operations from `from` on that the deployable unit `unit` serves, in
/// order, after `acc`.
pub open spec fn served(
    operations: Seq<PathOperationView>,
    units: Seq<Option<usize>>,
    unit: usize,
    from: int,
    acc: Seq<PathOperationView>,
) -> Seq<PathOperationView>
    decreases operations.len() - from,
{
    if from < 0 || from >= operations.len() {
        acc
    } else if from < units.len() && units[from] == Some(unit) {
        served(operations, units, unit, from + 1, acc.push(operations[from]))
    } else {
        served(operations, units, unit, from + 1, acc)
    }
}

/// The module of one deployable unit: none where the unit serves no
/// operation; else the plans of its operations by operation id, of which no
/// two may have the same operation id.
pub open spec fn unit_module(
    components: ComponentsView,
    models: Seq<CompiledTypeView>,
    mod_name: Seq<char>,
    operations: Seq<PathOperationView>,
) -> Result<Option<ModulePlanView>, CompileErrorView> {
    if operations.len() == 0 {
        Ok(None)
    } else {
        match module_plan(
            components,
            models,
            mod_name,
            arranged(operations, sorted_positions(operation_keys(operations))),
        ) {
            Err(e) => Err(e),
            Ok(plan) => match first_duplicate(plan.operations, plan.operations.len() as int) {
                Some(id) => fail(CompileErrorKind::DuplicateOperationId, id),
                None => Ok(Some(plan)),
            },
        }
    }
}

/// The modules of the deployable units that `order` lists, in that order,
/// after `acc`.
pub open spec fn unit_modules(
    components: ComponentsView,
    models: Seq<CompiledTypeView>,
    lambdas: Seq<ApiLambda>,
    operations: Seq<PathOperationView>,
    units: Seq<Option<usize>>,
    order: Seq<usize>,
    acc: Seq<ModulePlanView>,
) -> Result<Seq<ModulePlanView>, CompileErrorView>
    decreases order.len(),
{
    if order.len() == 0 {
        Ok(acc)
    } else if order[0] >= lambdas.len() {
        unit_modules(components, models, lambdas, operations, units, order.drop_first(), acc)
    } else {
        match unit_module(
            components,
            models,
            lambdas[order[0] as int].mod_name@,
            served(operations, units, order[0], 0, Seq::empty()),
        ) {
            Err(e) => Err(e),
            Ok(None) => unit_modules(
                components,
                models,
                lambdas,
                operations,
                units,
                order.drop_first(),
                acc,
            ),
            Ok(Some(plan)) => unit_modules(
                components,
                models,
                lambdas,
                operations,
                units,
                order.drop_first(),
                acc.push(plan),
            ),
        }
    }
}

/// The modules that a run generates: one for each deployable unit that
/// serves an operation, by module name.
pub open spec fn planned_modules(
    components: ComponentsView,
    models: Seq<CompiledTypeView>,
    lambdas: Seq<ApiLambda>,
    operations: Seq<PathOperationView>,
    units: Seq<Option<usize>>,
) -> Result<Seq<ModulePlanView>, CompileErrorView> {
    unit_modules(
        components,
        models,
        lambdas,
        operations,
        units,
        sorted_positions(unit_keys(lambdas)),
        Seq::empty(),
    )
}

/// Picks the operations that one deployable unit serves, in order.
pub fn served_operations<'a>(
    operations: &Vec<PathOperation<'a>>,
    units: &Vec<Option<usize>>,
    unit: usize,
) -> (r: Vec<PathOperation<'a>>)
    ensures
        r.deep_view() == served(operations.deep_view(), units@, unit, 0, Seq::empty()),
{
    let mut out: Vec<PathOperation<'a>> = Vec::new();
    let mut i: usize = 0;
    proof {
        assert(out.deep_view() =~= Seq::empty());
    }
    while i < operations.len()
        invariant
            i <= operations.len(),
            served(operations.deep_view(), units@, unit, 0, Seq::empty()) == served(
                operations.deep_view(),
                units@,
                unit,
                i as int,
                out.deep_view(),
            ),
        decreases operations.len() - i,
    {
        assert(operations.deep_view()[i as int] == operations[i as int].deep_view());
        let serves = i < units.len() && match units[i] {
            Some(by) => by == unit,
            None => false,
        };
        if serves {
            let operation = PathOperation {
                method: operations[i].method,
                op: operations[i].op,
                request_path: operations[i].request_path,
            };
            push_item(&mut out, operation);
        }
        i += 1;
    }
    out
}

/// Plans the module of one deployable unit from the operations that it
/// serves.
pub fn gen_unit_module(
    mod_name: &str,
    operations: &Vec<PathOperation>,
    components: &Components,
    models: &mut Vec<CompiledType>,
) -> (res: Result<Option<ModulePlan>, CompileError>)
    ensures
        agrees(
            res,
            unit_module(
                components.deep_view(),
                old(models).deep_view(),
                mod_name@,
                operations.deep_view(),
            ),
        ),
        res is Ok ==> final(models).deep_view() == old(models).deep_view(),
{
    if operations.len() == 0 {
        return Ok(None);
    }
    let plan = match gen_api_module(mod_name, operations, components, models) {
        Err(e) => {
            return Err(e);
        },
        Ok(plan) => plan,
    };
    match check_operation_ids(&plan.operations) {
        Err(e) => Err(e),
        Ok(()) => Ok(Some(plan)),
    }
}

/// The module names of the deployable units, in order.
fn unit_names(lambdas: &Vec<ApiLambda>) -> (keys: Vec<Option<String>>)
    ensures
        keys.deep_view() == unit_keys(lambdas@),
{
    let mut keys: Vec<Option<String>> = Vec::new();
    let mut k: usize = 0;
    while k < lambdas.len()
        invariant
            k <= lambdas.len(),
            keys.deep_view() == unit_keys(lambdas@).take(k as int),
        decreases lambdas.len() - k,
    {
        let key = Some(lambdas[k].mod_name.clone());
        assert(key.deep_view() == unit_keys(lambdas@)[k as int]);
        push_item(&mut keys, key);
        assert(keys.deep_view() =~= unit_keys(lambdas@).take(k as int + 1));
        k += 1;
    }
    assert(keys.deep_view() =~= unit_keys(lambdas@));
    keys
}

/// Plans the modules of a run. `units` says for each operation which
/// deployable unit serves it. The modules come by module name, and a unit
/// that serves no operation gets none. Within a module no two operations may
/// have the same operation id.
#[verifier::loop_isolation(false)]
pub fn gen_api_modules(
    lambdas: &Vec<ApiLambda>,
    operations: &Vec<PathOperation>,
    units: &Vec<Option<usize>>,
    components: &Components,
    models: &mut Vec<CompiledType>,
) -> (res: Result<Vec<ModulePlan>, CompileError>)
    ensures
        agrees(
            res,
            planned_modules(
                components.deep_view(),
                old(models).deep_view(),
                lambdas@,
                operations.deep_view(),
                units@,
            ),
        ),
        res is Ok ==> final(models).deep_view() == old(models).deep_view(),
{
    let keys = unit_names(lambdas);
    let order = sorted_order(&keys);
    let ghost models0 = models.deep_view();
    let ghost goal = planned_modules(
        components.deep_view(),
        models0,
        lambdas@,
        operations.deep_view(),
        units@,
    );
    let mut out: Vec<ModulePlan> = Vec::new();
    let mut i: usize = 0;
    proof {
        assert(out.deep_view() =~= Seq::empty());
        assert(order@.skip(0) =~= order@);
    }
    while i < order.len()
        invariant
            i <= order.len(),
            models.deep_view() == models0,
            goal == unit_modules(
                components.deep_view(),
                models0,
                lambdas@,
                operations.deep_view(),
                units@,
                order@.skip(i as int),
                out.deep_view(),
            ),
        decreases order.len() - i,
    {
        proof {
            let rest = order@.skip(i as int);
            assert(rest[0] == order@[i as int]);
            assert(rest.drop_first() =~= order@.skip(i as int + 1));
        }
        let unit = order[i];
        if unit < lambdas.len() {
            let own = served_operations(operations, units, unit);
            match gen_unit_module(lambdas[unit].mod_name.as_str(), &own, components, models) {
                Err(e) => {
                    return Err(e);
                },
                Ok(None) => {},
                Ok(Some(plan)) => {
                    push_item(&mut out, plan);
                },
            }
        }
        i += 1;
    }
    Ok(out)
}

/// What the gateway is told of the operations from `from` on, after `acc`:
/// for each operation that a deployable unit serves, its operation id and the
/// address of the function of that unit.
pub open spec fn invocations(
    lambdas: Seq<ApiLambda>,
    operations: Seq<PathOperationView>,
    units: Seq<Option<usize>>,
    from: int,
    acc: Seq<(Seq<char>, (Seq<char>, bool))>,
) -> Seq<(Seq<char>, (Seq<char>, bool))>
    decreases operations.len() - from,
{
    if from < 0 || from >= operations.len() {
        acc
    } else if from < units.len() && units[from] is Some && units[from]->0 < lambdas.len()
        && operations[from].op.operation_id is Some {
        invocations(
            lambdas,
            operations,
            units,
            from + 1,
            acc.push(
                (
                    operations[from].op.operation_id->0,
                    invocation_arn(lambdas[units[from]->0 as int].lambda_arn.deep_view()),
                ),
            ),
        )
    } else {
        invocations(lambdas, operations, units, from + 1, acc)
    }
}

/// Lists for the gateway which function serves which operation id.
#[verifier::loop_isolation(false)]
pub fn invocation_table(
    lambdas: &Vec<ApiLambda>,
    operations: &Vec<PathOperation>,
    units: &Vec<Option<usize>>,
) -> (r: Vec<(String, InvocationArn)>)
    ensures
        r.deep_view() == invocations(lambdas@, operations.deep_view(), units@, 0, Seq::empty()),
{
    let mut out: Vec<(String, InvocationArn)> = Vec::new();
    let mut i: usize = 0;
    proof {
        assert(out.deep_view() =~= Seq::empty());
    }
    while i < operations.len()
        invariant
            i <= operations.len(),
            invocations(lambdas@, operations.deep_view(), units@, 0, Seq::empty()) == invocations(
                lambdas@,
                operations.deep_view(),
                units@,
                i as int,
                out.deep_view(),
            ),
        decreases operations.len() - i,
    {
        assert(operations.deep_view()[i as int] == operations[i as int].deep_view());
        if i < units.len() {
            match (units[i], &operations[i].op.operation_id) {
                (Some(unit), Some(id)) => {
                    if unit < lambdas.len() {
                        let arn = lambdas[unit].lambda_arn.apigw_invocation_arn();
                        push_item(&mut out, (id.clone(), arn));
                    }
                },
                _ => {},
            }
        }
        i += 1;
    }
    out
}

} // verus!
