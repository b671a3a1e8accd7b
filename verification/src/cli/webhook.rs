//! serve-webhook: which outputs receive the events, and which bots are
//! registered with the webhook.
use vstd::prelude::*;
use crate::cli::config::{clone_opt, opt_view, or_view, BotRecordView, CliConfig};
use crate::cli::error::{CliError, CliErrorView};
use crate::model::common::{AppId, BotContext};

verus! {

/// serve-webhook 命令参数
pub struct ServeWebhookArgs {
    /// 监听地址（如 0.0.0.0:3000）
    pub listen: String,
    /// 事件队列大小
    pub queue_size: usize,
    /// 打印事件到控制台
    pub print: bool,
    /// 保存事件到文件（JSONL 格式）
    pub output_file: Option<String>,
    /// 转发事件到指定 URL（可多次指定）
    pub forward_url: Vec<String>,
    /// 转发请求超时时间（秒）
    pub forward_timeout: u64,
    /// 要求签名验证
    pub require_signature: bool,
}

/// 控制台输出处理器
pub struct ConsoleOutput;

impl ConsoleOutput {
    pub fn new() -> (r: Self)
        ensures
            r == ConsoleOutput,
    {
        ConsoleOutput
    }
}

/// Where webhook events go.
#[derive(Debug, Clone)]
pub enum OutputTarget {
    /// Printed to the console.
    Console,
    /// Appended to a JSON-lines file.
    File(String),
    /// Posted to a URL, with a timeout in seconds.
    Forward { url: String, timeout_secs: u64 },
}

/// An output target as values.
pub enum TargetView {
    Console,
    File(Seq<char>),
    Forward(Seq<char>, u64),
}

impl View for OutputTarget {
    type V = TargetView;

    open spec fn view(&self) -> TargetView {
        match self {
            OutputTarget::Console => TargetView::Console,
            OutputTarget::File(p) => TargetView::File(p@),
            OutputTarget::Forward { url, timeout_secs } => TargetView::Forward(url@, *timeout_secs),
        }
    }
}

/// The forwarding targets for the URLs, in order.
pub open spec fn forwards(urls: Seq<String>, timeout: u64) -> Seq<TargetView> {
    urls.map_values(|u: String| TargetView::Forward(u@, timeout))
}

/// The outputs asked for: the console when printing, the file when given, and
/// a forward per URL, in that order.
pub open spec fn requested_outputs(args: &ServeWebhookArgs) -> Seq<TargetView> {
    (if args.print {
        seq![TargetView::Console]
    } else {
        Seq::empty()
    }) + (match opt_view(args.output_file) {
        Some(p) => seq![TargetView::File(p)],
        None => Seq::empty(),
    }) + forwards(args.forward_url@, args.forward_timeout)
}

/// The outputs of serve-webhook: those asked for, or the console alone when none
/// is.
pub open spec fn planned_outputs(args: &ServeWebhookArgs) -> Seq<TargetView> {
    if requested_outputs(args).len() == 0 {
        seq![TargetView::Console]
    } else {
        requested_outputs(args)
    }
}

/// The views of output targets.
pub open spec fn target_views(v: Seq<OutputTarget>) -> Seq<TargetView> {
    v.map_values(|t: OutputTarget| t@)
}

/// The outputs that serve-webhook feeds; never none.
pub fn plan_outputs(args: &ServeWebhookArgs) -> (r: Vec<OutputTarget>)
    ensures
        target_views(r@) == planned_outputs(args),
        r@.len() > 0,
{
    let mut out: Vec<OutputTarget> = Vec::new();
    if args.print {
        out.push(OutputTarget::Console);
    }
    match &args.output_file {
        Some(p) => out.push(OutputTarget::File(p.clone())),
        None => {},
    }
    let ghost head = target_views(out@);
    assert(head =~= (if args.print {
        seq![TargetView::Console]
    } else {
        Seq::empty()
    }) + (match opt_view(args.output_file) {
        Some(p) => seq![TargetView::File(p)],
        None => Seq::empty(),
    }));
    let mut i: usize = 0;
    while i < args.forward_url.len()
        invariant
            i <= args.forward_url@.len(),
            target_views(out@) == head + forwards(args.forward_url@.take(i as int), args.forward_timeout),
        decreases args.forward_url@.len() - i,
    {
        let ghost before = target_views(out@);
        let t = OutputTarget::Forward { url: args.forward_url[i].clone(), timeout_secs: args.forward_timeout };
        out.push(t);
        assert(target_views(out@) =~= before.push(t@));
        assert(forwards(args.forward_url@.take(i + 1), args.forward_timeout) =~= forwards(
            args.forward_url@.take(i as int),
            args.forward_timeout,
        ).push(TargetView::Forward(args.forward_url@[i as int]@, args.forward_timeout)));
        assert(target_views(out@) =~= head + forwards(args.forward_url@.take(i + 1), args.forward_timeout));
        i = i + 1;
    }
    assert(args.forward_url@.take(i as int) =~= args.forward_url@);
    if out.len() == 0 {
        out.push(OutputTarget::Console);
        assert(target_views(out@) =~= seq![TargetView::Console]);
    }
    out
}

/// The first bot at or after `i` with no token of its own while there is no
/// global token either.
pub open spec fn first_tokenless(bots: Seq<BotRecordView>, global: Option<Seq<char>>, i: int) -> Option<
    int,
>
    decreases bots.len() - i,
{
    if i < 0 || i >= bots.len() {
        None
    } else if or_view(bots[i].token, global) is None {
        Some(i)
    } else {
        first_tokenless(bots, global, i + 1)
    }
}

/// The context registered for a configured bot: its app id, its own token else
/// the global one, its webhook secret, and its alias as description.
pub open spec fn registers(ctx: BotContext, b: BotRecordView, global: Option<Seq<char>>) -> bool {
    &&& ctx.app_id.0@ == b.app_id
    &&& Some(ctx.token@) == or_view(b.token, global)
    &&& opt_view(ctx.webhook_secret) == b.webhook_secret
    &&& opt_view(ctx.description) == b.alias
}

/// The contexts of all configured bots, in order; an error names the first bot
/// that has no token when there is no global token.
pub fn registered_bots(config: &CliConfig) -> (r: Result<Vec<BotContext>, CliError>)
    ensures
        match first_tokenless(config@.bots, config@.token, 0) {
            Some(i) => r matches Err(e) && e@ == CliErrorView::MissingBotToken(config@.bots[i].app_id),
            None => r matches Ok(v) && v@.len() == config@.bots.len() && forall|i: int|
                0 <= i < v@.len() ==> registers(#[trigger] v@[i], config@.bots[i], config@.token),
        },
{
    let mut out: Vec<BotContext> = Vec::new();
    let mut i: usize = 0;
    while i < config.bots.len()
        invariant
            i <= config.bots@.len(),
            out@.len() == i,
            first_tokenless(config@.bots, config@.token, 0) == first_tokenless(
                config@.bots,
                config@.token,
                i as int,
            ),
            forall|j: int| 0 <= j < i ==> registers(#[trigger] out@[j], config@.bots[j], config@.token),
        decreases config.bots@.len() - i,
    {
        let b = &config.bots[i];
        assert(config@.bots[i as int] == b@);
        let token = match &b.token {
            Some(t) => t.clone(),
            None => match &config.token {
                Some(t) => t.clone(),
                None => return Err(CliError::MissingBotToken { app_id: b.app_id.clone() }),
            },
        };
        out.push(
            BotContext {
                app_id: AppId(b.app_id.clone()),
                token,
                webhook_secret: clone_opt(&b.webhook_secret),
                description: clone_opt(&b.alias),
            },
        );
        i = i + 1;
    }
    Ok(out)
}

/// Every output asked for is fed: with `--print` the console comes first, the
/// file given is among the outputs, and so is a forward to each URL; with none
/// asked for, the console alone.
pub proof fn law_requested_outputs_are_fed(args: &ServeWebhookArgs)
    ensures
        planned_outputs(args).len() > 0,
        args.print ==> planned_outputs(args)[0] == TargetView::Console,
        opt_view(args.output_file) matches Some(p) ==> planned_outputs(args).contains(
            TargetView::File(p),
        ),
        forall|i: int|
            0 <= i < args.forward_url@.len() ==> planned_outputs(args).contains(
                TargetView::Forward(#[trigger] args.forward_url@[i]@, args.forward_timeout),
            ),
        !args.print && args.output_file is None && args.forward_url@.len() == 0 ==> planned_outputs(
            args,
        ) == seq![TargetView::Console],
{
    let head = (if args.print {
        seq![TargetView::Console]
    } else {
        Seq::empty()
    }) + (match opt_view(args.output_file) {
        Some(p) => seq![TargetView::File(p)],
        None => Seq::<TargetView>::empty(),
    });
    let fw = forwards(args.forward_url@, args.forward_timeout);
    assert(requested_outputs(args) == head + fw);
    if let Some(p) = opt_view(args.output_file) {
        let k: int = if args.print { 1 } else { 0 };
        assert(requested_outputs(args)[k] == TargetView::File(p));
    }
    assert forall|i: int| 0 <= i < args.forward_url@.len() implies planned_outputs(args).contains(
        TargetView::Forward(#[trigger] args.forward_url@[i]@, args.forward_timeout),
    ) by {
        assert(fw[i] == TargetView::Forward(args.forward_url@[i]@, args.forward_timeout));
        assert(requested_outputs(args)[head.len() + i] == fw[i]);
    }
    if !args.print && args.output_file is None && args.forward_url@.len() == 0 {
        assert(requested_outputs(args).len() == 0);
    }
}

} // verus!
