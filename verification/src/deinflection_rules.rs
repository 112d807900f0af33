//! The suffix rules, as data, and the lookup that the engine reads them by.
//!
//! Each row of the table gives a suffix, the kana that replace it, the
//! classes one of which the word must have (none: the rule applies only to a
//! word of which nothing is known yet), and the classes of the result. The
//! rows of one suffix apply in the order in which they stand. A suffix has
//! at least one character and at most `MAX_SUFFIX_LENGTH`.

use crate::deinflect::{DeinflectionRule, RuleView};
use crate::grammar::{set_of_bits, RuleType, RuleTypeSet, ADJ_I, IRU, NONE, V1, V5, VK, VS, VZ};
use crate::text::str_eq;
use vstd::prelude::*;

verus! {

/// The number of characters of the longest suffix of the table, and so of
/// the longest suffix that is tried on a word. It goes with the table: a
/// longer suffix in a row asks for a higher number here.
pub const MAX_SUFFIX_LENGTH: usize = 7;

/// The number of rows of the table.
pub const RULE_COUNT: usize = 569;

/// The table: in each row the suffix, the kana that replace it, the classes
/// that the rule asks for, and the classes that it gives.
pub const DEINFLECTION_RULES: [(&'static str, &'static str, u8, u8); 569] = [
    ("ければ", "い", NONE, ADJ_I),
    ("えば", "う", NONE, V5),
    ("けば", "く", NONE, V5),
    ("げば", "ぐ", NONE, V5),
    ("せば", "す", NONE, V5),
    ("てば", "つ", NONE, V5),
    ("ねば", "ぬ", NONE, V5),
    ("べば", "ぶ", NONE, V5),
    ("めば", "む", NONE, V5),
    ("れば", "る", NONE, V1 + V5 + VK + VS + VZ),
    ("ちゃう", "る", V5, V1),
    ("いじゃう", "ぐ", V5, V5),
    ("いちゃう", "く", V5, V5),
    ("しちゃう", "す", V5, V5),
    ("しちゃう", "する", V5, VS),
    ("っちゃう", "う", V5, V5),
    ("っちゃう", "く", V5, V5),
    ("っちゃう", "つ", V5, V5),
    ("っちゃう", "る", V5, V5),
    ("んじゃう", "ぬ", V5, V5),
    ("んじゃう", "ぶ", V5, V5),
    ("んじゃう", "む", V5, V5),
    ("じちゃう", "ずる", V5, VZ),
    ("為ちゃう", "為る", V5, VS),
    ("きちゃう", "くる", V5, VK),
    ("来ちゃう", "来る", V5, VK),
    ("來ちゃう", "來る", V5, VK),
    ("ちまう", "る", V5, V1),
    ("いじまう", "ぐ", V5, V5),
    ("いちまう", "く", V5, V5),
    ("しちまう", "す", V5, V5),
    ("しちまう", "する", V5, VS),
    ("っちまう", "う", V5, V5),
    ("っちまう", "く", V5, V5),
    ("っちまう", "つ", V5, V5),
    ("っちまう", "る", V5, V5),
    ("んじまう", "ぬ", V5, V5),
    ("んじまう", "ぶ", V5, V5),
    ("んじまう", "む", V5, V5),
    ("じちまう", "ずる", V5, VZ),
    ("為ちまう", "為る", V5, VS),
    ("きちまう", "くる", V5, VK),
    ("来ちまう", "来る", V5, VK),
    ("來ちまう", "來る", V5, VK),
    ("てしまう", "て", V5, IRU),
    ("でしまう", "で", V5, IRU),
    ("なさい", "る", NONE, V1),
    ("いなさい", "う", NONE, V5),
    ("きなさい", "く", NONE, V5),
    ("きなさい", "くる", NONE, VK),
    ("ぎなさい", "ぐ", NONE, V5),
    ("しなさい", "す", NONE, V5),
    ("しなさい", "する", NONE, VS),
    ("ちなさい", "つ", NONE, V5),
    ("になさい", "ぬ", NONE, V5),
    ("びなさい", "ぶ", NONE, V5),
    ("みなさい", "む", NONE, V5),
    ("りなさい", "る", NONE, V5),
    ("じなさい", "ずる", NONE, VZ),
    ("為なさい", "為る", NONE, VS),
    ("来なさい", "来る", NONE, VK),
    ("來なさい", "來る", NONE, VK),
    ("そう", "い", NONE, ADJ_I),
    ("そう", "る", NONE, V1),
    ("そう", "す", NONE, V5),
    ("いそう", "う", NONE, V5),
    ("きそう", "く", NONE, V5),
    ("きそう", "くる", NONE, VK),
    ("ぎそう", "ぐ", NONE, V5),
    ("しそう", "す", NONE, V5),
    ("しそう", "する", NONE, VS),
    ("ちそう", "つ", NONE, V5),
    ("にそう", "ぬ", NONE, V5),
    ("びそう", "ぶ", NONE, V5),
    ("みそう", "む", NONE, V5),
    ("りそう", "る", NONE, V5),
    ("じそう", "ずる", NONE, VZ),
    ("為そう", "為る", NONE, VS),
    ("来そう", "来る", NONE, VK),
    ("來そう", "來る", NONE, VK),
    ("すぎる", "い", V1, ADJ_I),
    ("すぎる", "る", V1, V1),
    ("いすぎる", "う", V1, V5),
    ("きすぎる", "く", V1, V5),
    ("きすぎる", "くる", V1, VK),
    ("ぎすぎる", "ぐ", V1, V5),
    ("しすぎる", "す", V1, V5),
    ("しすぎる", "する", V1, VS),
    ("ちすぎる", "つ", V1, V5),
    ("にすぎる", "ぬ", V1, V5),
    ("びすぎる", "ぶ", V1, V5),
    ("みすぎる", "む", V1, V5),
    ("りすぎる", "る", V1, V5),
    ("じすぎる", "ずる", V1, VZ),
    ("為すぎる", "為る", V1, VS),
    ("来すぎる", "来る", V1, VK),
    ("來すぎる", "來る", V1, VK),
    ("たい", "る", ADJ_I, V1),
    ("いたい", "う", ADJ_I, V5),
    ("きたい", "く", ADJ_I, V5),
    ("きたい", "くる", ADJ_I, VK),
    ("ぎたい", "ぐ", ADJ_I, V5),
    ("したい", "す", ADJ_I, V5),
    ("したい", "する", ADJ_I, VS),
    ("ちたい", "つ", ADJ_I, V5),
    ("にたい", "ぬ", ADJ_I, V5),
    ("びたい", "ぶ", ADJ_I, V5),
    ("みたい", "む", ADJ_I, V5),
    ("りたい", "る", ADJ_I, V5),
    ("じたい", "ずる", ADJ_I, VZ),
    ("為たい", "為る", ADJ_I, VS),
    ("来たい", "来る", ADJ_I, VK),
    ("來たい", "來る", ADJ_I, VK),
    ("かったら", "い", NONE, ADJ_I),
    ("たら", "る", NONE, V1),
    ("いたら", "く", NONE, V5),
    ("いだら", "ぐ", NONE, V5),
    ("したら", "す", NONE, V5),
    ("したら", "する", NONE, VS),
    ("ったら", "う", NONE, V5),
    ("ったら", "つ", NONE, V5),
    ("ったら", "る", NONE, V5),
    ("んだら", "ぬ", NONE, V5),
    ("んだら", "ぶ", NONE, V5),
    ("んだら", "む", NONE, V5),
    ("じたら", "ずる", NONE, VZ),
    ("為たら", "為る", NONE, VS),
    ("きたら", "くる", NONE, VK),
    ("来たら", "来る", NONE, VK),
    ("來たら", "來る", NONE, VK),
    ("いったら", "いく", NONE, V5),
    ("おうたら", "おう", NONE, V5),
    ("こうたら", "こう", NONE, V5),
    ("そうたら", "そう", NONE, V5),
    ("とうたら", "とう", NONE, V5),
    ("行ったら", "行く", NONE, V5),
    ("逝ったら", "逝く", NONE, V5),
    ("往ったら", "往く", NONE, V5),
    ("請うたら", "請う", NONE, V5),
    ("乞うたら", "乞う", NONE, V5),
    ("恋うたら", "恋う", NONE, V5),
    ("問うたら", "問う", NONE, V5),
    ("負うたら", "負う", NONE, V5),
    ("沿うたら", "沿う", NONE, V5),
    ("添うたら", "添う", NONE, V5),
    ("副うたら", "副う", NONE, V5),
    ("厭うたら", "厭う", NONE, V5),
    ("のたもうたら", "のたまう", NONE, V5),
    ("かったり", "い", NONE, ADJ_I),
    ("たり", "る", NONE, V1),
    ("いたり", "く", NONE, V5),
    ("いだり", "ぐ", NONE, V5),
    ("したり", "す", NONE, V5),
    ("したり", "する", NONE, VS),
    ("ったり", "う", NONE, V5),
    ("ったり", "つ", NONE, V5),
    ("ったり", "る", NONE, V5),
    ("んだり", "ぬ", NONE, V5),
    ("んだり", "ぶ", NONE, V5),
    ("んだり", "む", NONE, V5),
    ("じたり", "ずる", NONE, VZ),
    ("為たり", "為る", NONE, VS),
    ("きたり", "くる", NONE, VK),
    ("来たり", "来る", NONE, VK),
    ("來たり", "來る", NONE, VK),
    ("いったり", "いく", NONE, V5),
    ("おうたり", "おう", NONE, V5),
    ("こうたり", "こう", NONE, V5),
    ("そうたり", "そう", NONE, V5),
    ("とうたり", "とう", NONE, V5),
    ("行ったり", "行く", NONE, V5),
    ("逝ったり", "逝く", NONE, V5),
    ("往ったり", "往く", NONE, V5),
    ("請うたり", "請う", NONE, V5),
    ("乞うたり", "乞う", NONE, V5),
    ("恋うたり", "恋う", NONE, V5),
    ("問うたり", "問う", NONE, V5),
    ("負うたり", "負う", NONE, V5),
    ("沿うたり", "沿う", NONE, V5),
    ("添うたり", "添う", NONE, V5),
    ("副うたり", "副う", NONE, V5),
    ("厭うたり", "厭う", NONE, V5),
    ("のたもうたり", "のたまう", NONE, V5),
    ("くて", "い", IRU, ADJ_I),
    ("て", "る", IRU, V1),
    ("て", "つ", NONE, V5),
    ("て", "てる", NONE, V1),
    ("いて", "く", IRU, V5),
    ("いで", "ぐ", IRU, V5),
    ("して", "す", IRU, V5),
    ("して", "する", IRU, VS),
    ("って", "う", IRU, V5),
    ("って", "つ", IRU, V5),
    ("って", "る", IRU, V5),
    ("んで", "ぬ", IRU, V5),
    ("んで", "ぶ", IRU, V5),
    ("んで", "む", IRU, V5),
    ("じて", "ずる", IRU, VZ),
    ("為て", "為る", IRU, VS),
    ("きて", "くる", IRU, VK),
    ("来て", "来る", IRU, VK),
    ("來て", "來る", IRU, VK),
    ("いって", "いく", IRU, V5),
    ("おうて", "おう", IRU, V5),
    ("こうて", "こう", IRU, V5),
    ("そうて", "そう", IRU, V5),
    ("とうて", "とう", IRU, V5),
    ("行って", "行く", IRU, V5),
    ("逝って", "逝く", IRU, V5),
    ("往って", "往く", IRU, V5),
    ("請うて", "請う", IRU, V5),
    ("乞うて", "乞う", IRU, V5),
    ("恋うて", "恋う", IRU, V5),
    ("問うて", "問う", IRU, V5),
    ("負うて", "負う", IRU, V5),
    ("沿うて", "沿う", IRU, V5),
    ("添うて", "添う", IRU, V5),
    ("副うて", "副う", IRU, V5),
    ("厭うて", "厭う", IRU, V5),
    ("のたもうて", "のたまう", IRU, V5),
    ("ず", "る", NONE, V1),
    ("かず", "く", NONE, V5),
    ("がず", "ぐ", NONE, V5),
    ("さず", "す", NONE, V5),
    ("たず", "つ", NONE, V5),
    ("なず", "ぬ", NONE, V5),
    ("ばず", "ぶ", NONE, V5),
    ("まず", "む", NONE, V5),
    ("らず", "る", NONE, V5),
    ("わず", "う", NONE, V5),
    ("ぜず", "ずる", NONE, VZ),
    ("せず", "する", NONE, VS),
    ("為ず", "為る", NONE, VS),
    ("こず", "くる", NONE, VK),
    ("来ず", "来る", NONE, VK),
    ("來ず", "來る", NONE, VK),
    ("ぬ", "る", NONE, V1),
    ("かぬ", "く", NONE, V5),
    ("がぬ", "ぐ", NONE, V5),
    ("さぬ", "す", NONE, V5),
    ("たぬ", "つ", NONE, V5),
    ("なぬ", "ぬ", NONE, V5),
    ("ばぬ", "ぶ", NONE, V5),
    ("まぬ", "む", NONE, V5),
    ("らぬ", "る", NONE, V5),
    ("わぬ", "う", NONE, V5),
    ("ぜぬ", "ずる", NONE, VZ),
    ("せぬ", "する", NONE, VS),
    ("為ぬ", "為る", NONE, VS),
    ("こぬ", "くる", NONE, VK),
    ("来ぬ", "来る", NONE, VK),
    ("來ぬ", "來る", NONE, VK),
    ("く", "い", NONE, ADJ_I),
    ("させる", "る", V1, V1),
    ("させる", "す", V1, V5),
    ("させる", "する", V1, VS),
    ("かせる", "く", V1, V5),
    ("がせる", "ぐ", V1, V5),
    ("たせる", "つ", V1, V5),
    ("なせる", "ぬ", V1, V5),
    ("ばせる", "ぶ", V1, V5),
    ("ませる", "む", V1, V5),
    ("らせる", "る", V1, V5),
    ("わせる", "う", V1, V5),
    ("じさせる", "ずる", V1, VZ),
    ("ぜさせる", "ずる", V1, VZ),
    ("為せる", "為る", V1, VS),
    ("せさせる", "する", V1, VS),
    ("為させる", "為る", V1, VS),
    ("こさせる", "くる", V1, VK),
    ("来させる", "来る", V1, VK),
    ("來させる", "來る", V1, VK),
    ("ろ", "る", NONE, V1),
    ("よ", "る", NONE, V1),
    ("え", "う", NONE, V5),
    ("え", "える", NONE, V1),
    ("け", "く", NONE, V5),
    ("け", "ける", NONE, V1),
    ("げ", "ぐ", NONE, V5),
    ("げ", "げる", NONE, V1),
    ("せ", "す", NONE, V5),
    ("せ", "せる", NONE, V1),
    ("ね", "ぬ", NONE, V5),
    ("ね", "ねる", NONE, V1),
    ("べ", "ぶ", NONE, V5),
    ("べ", "べる", NONE, V1),
    ("め", "む", NONE, V5),
    ("め", "める", NONE, V1),
    ("れ", "る", NONE, V5),
    ("れ", "れる", NONE, V1),
    ("じろ", "ずる", NONE, VZ),
    ("ぜよ", "ずる", NONE, VZ),
    ("しろ", "する", NONE, VS),
    ("せよ", "する", NONE, VS),
    ("為ろ", "為る", NONE, VS),
    ("為よ", "為る", NONE, VS),
    ("こい", "くる", NONE, VK),
    ("来い", "来る", NONE, VK),
    ("來い", "來る", NONE, VK),
    ("な", "", NONE, V1 + V5 + VK + VS + VZ),
    ("い", "いる", NONE, V1),
    ("い", "う", NONE, V5),
    ("き", "きる", NONE, V1),
    ("き", "く", NONE, V5),
    ("き", "くる", NONE, VK),
    ("き", "い", NONE, ADJ_I),
    ("ぎ", "ぎる", NONE, V1),
    ("ぎ", "ぐ", NONE, V5),
    ("じ", "じる", NONE, V1),
    ("ぜ", "ぜる", NONE, V1),
    ("ち", "ちる", NONE, V1),
    ("ち", "つ", NONE, V5),
    ("で", "でる", NONE, V1),
    ("に", "にる", NONE, V1),
    ("に", "ぬ", NONE, V5),
    ("ひ", "ひる", NONE, V1),
    ("び", "びる", NONE, V1),
    ("び", "ぶ", NONE, V5),
    ("へ", "へる", NONE, V1),
    ("み", "みる", NONE, V1),
    ("み", "む", NONE, V5),
    ("り", "りる", NONE, V1),
    ("り", "る", NONE, V5),
    ("し", "す", NONE, V5),
    ("し", "する", NONE, VS),
    ("来", "来る", NONE, VK),
    ("來", "來る", NONE, VK),
    ("くない", "い", ADJ_I, ADJ_I),
    ("ない", "る", ADJ_I, V1),
    ("かない", "く", ADJ_I, V5),
    ("がない", "ぐ", ADJ_I, V5),
    ("さない", "す", ADJ_I, V5),
    ("たない", "つ", ADJ_I, V5),
    ("なない", "ぬ", ADJ_I, V5),
    ("ばない", "ぶ", ADJ_I, V5),
    ("まない", "む", ADJ_I, V5),
    ("らない", "る", ADJ_I, V5),
    ("わない", "う", ADJ_I, V5),
    ("じない", "ずる", ADJ_I, VZ),
    ("しない", "する", ADJ_I, VS),
    ("為ない", "為る", ADJ_I, VS),
    ("こない", "くる", ADJ_I, VK),
    ("来ない", "来る", ADJ_I, VK),
    ("來ない", "來る", ADJ_I, VK),
    ("さ", "い", NONE, ADJ_I),
    ("かれる", "く", V1, V5),
    ("がれる", "ぐ", V1, V5),
    ("される", "す", V1, V5),
    ("される", "する", V1, VS),
    ("たれる", "つ", V1, V5),
    ("なれる", "ぬ", V1, V5),
    ("ばれる", "ぶ", V1, V5),
    ("まれる", "む", V1, V5),
    ("われる", "う", V1, V5),
    ("られる", "る", V1, V1 + V5),
    ("じされる", "ずる", V1, VZ),
    ("ぜされる", "ずる", V1, VZ),
    ("為れる", "為る", V1, VS),
    ("こられる", "くる", V1, VK),
    ("来られる", "来る", V1, VK),
    ("來られる", "來る", V1, VK),
    ("かった", "い", NONE, ADJ_I),
    ("た", "る", NONE, V1),
    ("いた", "く", NONE, V5),
    ("いだ", "ぐ", NONE, V5),
    ("した", "す", NONE, V5),
    ("した", "する", NONE, VS),
    ("った", "う", NONE, V5),
    ("った", "つ", NONE, V5),
    ("った", "る", NONE, V5),
    ("んだ", "ぬ", NONE, V5),
    ("んだ", "ぶ", NONE, V5),
    ("んだ", "む", NONE, V5),
    ("じた", "ずる", NONE, VZ),
    ("為た", "為る", NONE, VS),
    ("きた", "くる", NONE, VK),
    ("来た", "来る", NONE, VK),
    ("來た", "來る", NONE, VK),
    ("いった", "いく", NONE, V5),
    ("おうた", "おう", NONE, V5),
    ("こうた", "こう", NONE, V5),
    ("そうた", "そう", NONE, V5),
    ("とうた", "とう", NONE, V5),
    ("行った", "行く", NONE, V5),
    ("逝った", "逝く", NONE, V5),
    ("往った", "往く", NONE, V5),
    ("請うた", "請う", NONE, V5),
    ("乞うた", "乞う", NONE, V5),
    ("恋うた", "恋う", NONE, V5),
    ("問うた", "問う", NONE, V5),
    ("負うた", "負う", NONE, V5),
    ("沿うた", "沿う", NONE, V5),
    ("添うた", "添う", NONE, V5),
    ("副うた", "副う", NONE, V5),
    ("厭うた", "厭う", NONE, V5),
    ("のたもうた", "のたまう", NONE, V5),
    ("ます", "る", NONE, V1),
    ("います", "う", NONE, V5),
    ("きます", "く", NONE, V5),
    ("きます", "くる", NONE, VK),
    ("ぎます", "ぐ", NONE, V5),
    ("します", "す", NONE, V5),
    ("します", "する", NONE, VS),
    ("ちます", "つ", NONE, V5),
    ("にます", "ぬ", NONE, V5),
    ("びます", "ぶ", NONE, V5),
    ("みます", "む", NONE, V5),
    ("ります", "る", NONE, V5),
    ("じます", "ずる", NONE, VZ),
    ("為ます", "為る", NONE, VS),
    ("来ます", "来る", NONE, VK),
    ("來ます", "來る", NONE, VK),
    ("くありません", "い", NONE, ADJ_I),
    ("ません", "る", NONE, V1),
    ("いません", "う", NONE, V5),
    ("きません", "く", NONE, V5),
    ("ぎません", "ぐ", NONE, V5),
    ("しません", "す", NONE, V5),
    ("しません", "する", NONE, VS),
    ("ちません", "つ", NONE, V5),
    ("にません", "ぬ", NONE, V5),
    ("びません", "ぶ", NONE, V5),
    ("みません", "む", NONE, V5),
    ("りません", "る", NONE, V5),
    ("じません", "ずる", NONE, VZ),
    ("為ません", "為る", NONE, VS),
    ("来ません", "来る", NONE, VK),
    ("來ません", "來る", NONE, VK),
    ("ました", "る", NONE, V1),
    ("いました", "う", NONE, V5),
    ("きました", "く", NONE, V5),
    ("きました", "くる", NONE, VK),
    ("ぎました", "ぐ", NONE, V5),
    ("しました", "す", NONE, V5),
    ("しました", "する", NONE, VS),
    ("ちました", "つ", NONE, V5),
    ("にました", "ぬ", NONE, V5),
    ("びました", "ぶ", NONE, V5),
    ("みました", "む", NONE, V5),
    ("りました", "る", NONE, V5),
    ("じました", "ずる", NONE, VZ),
    ("為ました", "為る", NONE, VS),
    ("来ました", "来る", NONE, VK),
    ("來ました", "來る", NONE, VK),
    ("ませんでした", "る", NONE, V1),
    ("いませんでした", "う", NONE, V5),
    ("きませんでした", "く", NONE, V5),
    ("きませんでした", "くる", NONE, VK),
    ("ぎませんでした", "ぐ", NONE, V5),
    ("しませんでした", "す", NONE, V5),
    ("しませんでした", "する", NONE, VS),
    ("ちませんでした", "つ", NONE, V5),
    ("にませんでした", "ぬ", NONE, V5),
    ("びませんでした", "ぶ", NONE, V5),
    ("みませんでした", "む", NONE, V5),
    ("りませんでした", "る", NONE, V5),
    ("じませんでした", "ずる", NONE, VZ),
    ("為ませんでした", "為る", NONE, VS),
    ("来ませんでした", "来る", NONE, VK),
    ("來ませんでした", "來る", NONE, VK),
    ("ましょう", "る", NONE, V1),
    ("いましょう", "う", NONE, V5),
    ("きましょう", "く", NONE, V5),
    ("きましょう", "くる", NONE, VK),
    ("ぎましょう", "ぐ", NONE, V5),
    ("しましょう", "す", NONE, V5),
    ("しましょう", "する", NONE, VS),
    ("ちましょう", "つ", NONE, V5),
    ("にましょう", "ぬ", NONE, V5),
    ("びましょう", "ぶ", NONE, V5),
    ("みましょう", "む", NONE, V5),
    ("りましょう", "る", NONE, V5),
    ("じましょう", "ずる", NONE, VZ),
    ("為ましょう", "為る", NONE, VS),
    ("来ましょう", "来る", NONE, VK),
    ("來ましょう", "來る", NONE, VK),
    ("れる", "る", V1, V1 + V5),
    ("える", "う", V1, V5),
    ("ける", "く", V1, V5),
    ("げる", "ぐ", V1, V5),
    ("せる", "す", V1, V5),
    ("てる", "つ", V1, V5),
    ("てる", "て", V1, IRU),
    ("ねる", "ぬ", V1, V5),
    ("べる", "ぶ", V1, V5),
    ("める", "む", V1, V5),
    ("これる", "くる", V1, VK),
    ("来れる", "来る", V1, VK),
    ("來れる", "來る", V1, VK),
    ("ざれる", "ずる", V1, VZ),
    ("ぜられる", "ずる", V1, VZ),
    ("せられる", "する", V1, VS),
    ("為られる", "為る", V1, VS),
    ("よう", "る", NONE, V1),
    ("おう", "う", NONE, V5),
    ("こう", "く", NONE, V5),
    ("ごう", "ぐ", NONE, V5),
    ("とう", "つ", NONE, V5),
    ("のう", "ぬ", NONE, V5),
    ("ぼう", "ぶ", NONE, V5),
    ("もう", "む", NONE, V5),
    ("ろう", "る", NONE, V5),
    ("じよう", "ずる", NONE, VZ),
    ("しよう", "する", NONE, VS),
    ("為よう", "為る", NONE, VS),
    ("りながら", "る", NONE, V1),
    ("きながら", "く", NONE, V5),
    ("しながら", "する", NONE, VS),
    ("ながら", "る", NONE, V1),
    ("らん", "る", NONE, V1),
    ("こよう", "くる", NONE, VK),
    ("来よう", "来る", NONE, VK),
    ("來よう", "來る", NONE, VK),
    ("かされる", "く", V1, V5),
    ("がされる", "ぐ", V1, V5),
    ("たされる", "つ", V1, V5),
    ("なされる", "ぬ", V1, V5),
    ("ばされる", "ぶ", V1, V5),
    ("まされる", "む", V1, V5),
    ("らされる", "る", V1, V5),
    ("わされる", "う", V1, V5),
    ("とく", "る", V5, V1),
    ("いとく", "く", V5, V5),
    ("いどく", "ぐ", V5, V5),
    ("しとく", "す", V5, V5),
    ("しとく", "する", V5, VS),
    ("っとく", "う", V5, V5),
    ("っとく", "つ", V5, V5),
    ("っとく", "る", V5, V5),
    ("んどく", "ぬ", V5, V5),
    ("んどく", "ぶ", V5, V5),
    ("んどく", "む", V5, V5),
    ("じとく", "ずる", V5, VZ),
    ("為とく", "為る", V5, VS),
    ("きとく", "くる", V5, VK),
    ("来とく", "来る", V5, VK),
    ("來とく", "來る", V5, VK),
    ("ている", "て", V1, IRU),
    ("ておる", "て", V5, IRU),
    ("でいる", "で", V1, IRU),
    ("でおる", "で", V5, IRU),
    ("でる", "で", V1, IRU),
    ("とる", "て", V5, IRU),
    ("ないでいる", "ない", V1, ADJ_I),
    ("しげ", "しい", NONE, ADJ_I),
    ("ねえ", "ない", NONE, ADJ_I),
    ("めえ", "むい", NONE, ADJ_I),
    ("めえ", "まい", NONE, ADJ_I),
    ("みい", "むい", NONE, ADJ_I),
    ("ちぇえ", "つい", NONE, ADJ_I),
    ("ちぇえ", "ちゃい", NONE, ADJ_I),
    ("ちい", "つい", NONE, ADJ_I),
    ("せえ", "すい", NONE, ADJ_I),
    ("せえ", "さい", NONE, ADJ_I),
    ("ええ", "いい", NONE, ADJ_I),
    ("ええ", "わい", NONE, ADJ_I),
    ("ええ", "よい", NONE, ADJ_I),
    ("いぇえ", "よい", NONE, ADJ_I),
    ("うぇえ", "わい", NONE, ADJ_I),
    ("けえ", "かい", NONE, ADJ_I),
    ("げえ", "がい", NONE, ADJ_I),
    ("げえ", "ごい", NONE, ADJ_I),
    ("ぜえ", "ずい", NONE, ADJ_I),
    ("っぜえ", "ずい", NONE, ADJ_I),
    ("れえ", "らい", NONE, ADJ_I),
    ("れえ", "れい", NONE, ADJ_I),
    ("でえ", "どい", NONE, ADJ_I),
    ("べえ", "ばい", NONE, ADJ_I),
    ("できる", "する", V1, VS),
];

/// The suffix of row `i`.
pub open spec fn row_suffix(i: int) -> Seq<char> {
    DEINFLECTION_RULES[i].0@
}

/// The rule of row `i`.
pub open spec fn row_rule(i: int) -> RuleView {
    RuleView {
        kana_out: DEINFLECTION_RULES[i].1@,
        rules_in: set_of_bits(DEINFLECTION_RULES[i].2),
        rules_out: set_of_bits(DEINFLECTION_RULES[i].3),
    }
}

/// The rules of `suffix` among the first `n` rows, in the order of the rows.
pub open spec fn rules_among(suffix: Seq<char>, n: int) -> Seq<RuleView>
    decreases n,
{
    if n <= 0 {
        Seq::empty()
    } else if row_suffix(n - 1) == suffix {
        rules_among(suffix, n - 1).push(row_rule(n - 1))
    } else {
        rules_among(suffix, n - 1)
    }
}

/// The rules that the table holds for `suffix`, in the order of the rows;
/// none where the table does not know the suffix.
pub open spec fn rules_for(suffix: Seq<char>) -> Seq<RuleView> {
    rules_among(suffix, RULE_COUNT as int)
}

/// A rule is sound for a suffix of `suffix_len` characters when its result
/// has a class, and when, if it asks for a class, it either makes the word
/// shorter, or keeps its length while it asks for the auxiliary form alone
/// and gives a result that is not the auxiliary form.
pub open spec fn rule_sound(rule: RuleView, suffix_len: int) -> bool {
    &&& rule.rules_out != Set::<RuleType>::empty()
    &&& rule.rules_in != Set::<RuleType>::empty() ==> {
        ||| rule.kana_out.len() < suffix_len
        ||| {
            &&& rule.kana_out.len() == suffix_len
            &&& rule.rules_in == set![RuleType::Iru]
            &&& !rule.rules_out.contains(RuleType::Iru)
        }
    }
}

/// Looks a suffix up in the table: gives the rules of the suffix in the
/// order of the rows, and nothing where the table has none. It has none for
/// the empty suffix and for one of more than `MAX_SUFFIX_LENGTH`
/// characters.
pub fn get_deinflection_rules(suffix: &str) -> (found: Option<Vec<DeinflectionRule>>)
    ensures
        match found {
            Some(rules) => rules.len() > 0 && rules.deep_view() == rules_for(suffix@),
            None => rules_for(suffix@).len() == 0,
        },
        found is Some ==> 1 <= suffix@.len() <= MAX_SUFFIX_LENGTH,
{
    let table = &DEINFLECTION_RULES;
    let mut rules: Vec<DeinflectionRule> = Vec::new();
    let mut i: usize = 0;
    while i < RULE_COUNT
        invariant
            i <= RULE_COUNT,
            *table == DEINFLECTION_RULES,
            rules.deep_view() == rules_among(suffix@, i as int),
        decreases RULE_COUNT - i,
    {
        let row = table[i];
        if str_eq(row.0, suffix) {
            let rule = DeinflectionRule {
                kana_out: row.1,
                rules_in: RuleTypeSet::from_bits(row.2),
                rules_out: RuleTypeSet::from_bits(row.3),
            };
            rules.push(rule);
            assert(rules.deep_view() =~= rules_among(suffix@, i as int).push(row_rule(i as int)));
        }
        i += 1;
    }
    proof {
        lemma_known_suffix(suffix@);
    }
    if rules.len() == 0 {
        None
    } else {
        Some(rules)
    }
}

// What holds of every row is read off the rows themselves, forty rows at a
// time. The length of each suffix is needed, and of a row that asks for a
// class the length of its kana too, so each lemma reveals those strings.

/// What is asked of row `i`, over the numbers that the row holds: the
/// length of its suffix, and what `rule_sound` asks of its rule.
spec fn row_ok(i: int) -> bool {
    let row = DEINFLECTION_RULES[i];
    &&& 1 <= row.0@.len() <= MAX_SUFFIX_LENGTH
    &&& 0 < row.3 < 128
    &&& row.2 != 0 ==> {
        ||| row.1@.len() < row.0@.len()
        ||| (row.1@.len() == row.0@.len() && row.2 == IRU && (row.3 / 2) % 2 == 0)
    }
}

spec fn rows_ok(lo: int, hi: int) -> bool
    decreases hi - lo,
{
    lo >= hi || (row_ok(lo) && rows_ok(lo + 1, hi))
}

proof fn lemma_rows_ok_each(lo: int, hi: int)
    requires
        rows_ok(lo, hi),
    ensures
        forall|i: int| lo <= i < hi ==> row_ok(i),
    decreases hi - lo,
{
    if lo < hi {
        lemma_rows_ok_each(lo + 1, hi);
    }
}

proof fn lemma_rows_from_0()
    ensures
        rows_ok(0, 40),
{
    reveal_with_fuel(rows_ok, 41);
    reveal_strlit("ければ");
    reveal_strlit("えば");
    reveal_strlit("けば");
    reveal_strlit("げば");
    reveal_strlit("せば");
    reveal_strlit("てば");
    reveal_strlit("ねば");
    reveal_strlit("べば");
    reveal_strlit("めば");
    reveal_strlit("れば");
    reveal_strlit("ちゃう");
    reveal_strlit("る");
    reveal_strlit("いじゃう");
    reveal_strlit("ぐ");
    reveal_strlit("いちゃう");
    reveal_strlit("く");
    reveal_strlit("しちゃう");
    reveal_strlit("す");
    reveal_strlit("する");
    reveal_strlit("っちゃう");
    reveal_strlit("う");
    reveal_strlit("つ");
    reveal_strlit("んじゃう");
    reveal_strlit("ぬ");
    reveal_strlit("ぶ");
    reveal_strlit("む");
    reveal_strlit("じちゃう");
    reveal_strlit("ずる");
    reveal_strlit("為ちゃう");
    reveal_strlit("為る");
    reveal_strlit("きちゃう");
    reveal_strlit("くる");
    reveal_strlit("来ちゃう");
    reveal_strlit("来る");
    reveal_strlit("來ちゃう");
    reveal_strlit("來る");
    reveal_strlit("ちまう");
    reveal_strlit("いじまう");
    reveal_strlit("いちまう");
    reveal_strlit("しちまう");
    reveal_strlit("っちまう");
    reveal_strlit("んじまう");
    reveal_strlit("じちまう");
}

proof fn lemma_rows_from_40()
    ensures
        rows_ok(40, 80),
{
    reveal_with_fuel(rows_ok, 41);
    reveal_strlit("為ちまう");
    reveal_strlit("為る");
    reveal_strlit("きちまう");
    reveal_strlit("くる");
    reveal_strlit("来ちまう");
    reveal_strlit("来る");
    reveal_strlit("來ちまう");
    reveal_strlit("來る");
    reveal_strlit("てしまう");
    reveal_strlit("て");
    reveal_strlit("でしまう");
    reveal_strlit("で");
    reveal_strlit("なさい");
    reveal_strlit("いなさい");
    reveal_strlit("きなさい");
    reveal_strlit("ぎなさい");
    reveal_strlit("しなさい");
    reveal_strlit("ちなさい");
    reveal_strlit("になさい");
    reveal_strlit("びなさい");
    reveal_strlit("みなさい");
    reveal_strlit("りなさい");
    reveal_strlit("じなさい");
    reveal_strlit("為なさい");
    reveal_strlit("来なさい");
    reveal_strlit("來なさい");
    reveal_strlit("そう");
    reveal_strlit("いそう");
    reveal_strlit("きそう");
    reveal_strlit("ぎそう");
    reveal_strlit("しそう");
    reveal_strlit("ちそう");
    reveal_strlit("にそう");
    reveal_strlit("びそう");
    reveal_strlit("みそう");
    reveal_strlit("りそう");
    reveal_strlit("じそう");
    reveal_strlit("為そう");
    reveal_strlit("来そう");
    reveal_strlit("來そう");
}

proof fn lemma_rows_from_80()
    ensures
        rows_ok(80, 120),
{
    reveal_with_fuel(rows_ok, 41);
    reveal_strlit("すぎる");
    reveal_strlit("い");
    reveal_strlit("る");
    reveal_strlit("いすぎる");
    reveal_strlit("う");
    reveal_strlit("きすぎる");
    reveal_strlit("く");
    reveal_strlit("くる");
    reveal_strlit("ぎすぎる");
    reveal_strlit("ぐ");
    reveal_strlit("しすぎる");
    reveal_strlit("す");
    reveal_strlit("する");
    reveal_strlit("ちすぎる");
    reveal_strlit("つ");
    reveal_strlit("にすぎる");
    reveal_strlit("ぬ");
    reveal_strlit("びすぎる");
    reveal_strlit("ぶ");
    reveal_strlit("みすぎる");
    reveal_strlit("む");
    reveal_strlit("りすぎる");
    reveal_strlit("じすぎる");
    reveal_strlit("ずる");
    reveal_strlit("為すぎる");
    reveal_strlit("為る");
    reveal_strlit("来すぎる");
    reveal_strlit("来る");
    reveal_strlit("來すぎる");
    reveal_strlit("來る");
    reveal_strlit("たい");
    reveal_strlit("いたい");
    reveal_strlit("きたい");
    reveal_strlit("ぎたい");
    reveal_strlit("したい");
    reveal_strlit("ちたい");
    reveal_strlit("にたい");
    reveal_strlit("びたい");
    reveal_strlit("みたい");
    reveal_strlit("りたい");
    reveal_strlit("じたい");
    reveal_strlit("為たい");
    reveal_strlit("来たい");
    reveal_strlit("來たい");
    reveal_strlit("かったら");
    reveal_strlit("たら");
    reveal_strlit("いたら");
    reveal_strlit("いだら");
    reveal_strlit("したら");
    reveal_strlit("ったら");
}

proof fn lemma_rows_from_120()
    ensures
        rows_ok(120, 160),
{
    reveal_with_fuel(rows_ok, 41);
    reveal_strlit("ったら");
    reveal_strlit("んだら");
    reveal_strlit("じたら");
    reveal_strlit("為たら");
    reveal_strlit("きたら");
    reveal_strlit("来たら");
    reveal_strlit("來たら");
    reveal_strlit("いったら");
    reveal_strlit("おうたら");
    reveal_strlit("こうたら");
    reveal_strlit("そうたら");
    reveal_strlit("とうたら");
    reveal_strlit("行ったら");
    reveal_strlit("逝ったら");
    reveal_strlit("往ったら");
    reveal_strlit("請うたら");
    reveal_strlit("乞うたら");
    reveal_strlit("恋うたら");
    reveal_strlit("問うたら");
    reveal_strlit("負うたら");
    reveal_strlit("沿うたら");
    reveal_strlit("添うたら");
    reveal_strlit("副うたら");
    reveal_strlit("厭うたら");
    reveal_strlit("のたもうたら");
    reveal_strlit("かったり");
    reveal_strlit("たり");
    reveal_strlit("いたり");
    reveal_strlit("いだり");
    reveal_strlit("したり");
    reveal_strlit("ったり");
    reveal_strlit("んだり");
}

proof fn lemma_rows_from_160()
    ensures
        rows_ok(160, 200),
{
    reveal_with_fuel(rows_ok, 41);
    reveal_strlit("じたり");
    reveal_strlit("為たり");
    reveal_strlit("きたり");
    reveal_strlit("来たり");
    reveal_strlit("來たり");
    reveal_strlit("いったり");
    reveal_strlit("おうたり");
    reveal_strlit("こうたり");
    reveal_strlit("そうたり");
    reveal_strlit("とうたり");
    reveal_strlit("行ったり");
    reveal_strlit("逝ったり");
    reveal_strlit("往ったり");
    reveal_strlit("請うたり");
    reveal_strlit("乞うたり");
    reveal_strlit("恋うたり");
    reveal_strlit("問うたり");
    reveal_strlit("負うたり");
    reveal_strlit("沿うたり");
    reveal_strlit("添うたり");
    reveal_strlit("副うたり");
    reveal_strlit("厭うたり");
    reveal_strlit("のたもうたり");
    reveal_strlit("くて");
    reveal_strlit("い");
    reveal_strlit("て");
    reveal_strlit("る");
    reveal_strlit("いて");
    reveal_strlit("く");
    reveal_strlit("いで");
    reveal_strlit("ぐ");
    reveal_strlit("して");
    reveal_strlit("す");
    reveal_strlit("する");
    reveal_strlit("って");
    reveal_strlit("う");
    reveal_strlit("つ");
    reveal_strlit("んで");
    reveal_strlit("ぬ");
    reveal_strlit("ぶ");
    reveal_strlit("む");
    reveal_strlit("じて");
    reveal_strlit("ずる");
    reveal_strlit("為て");
    reveal_strlit("為る");
    reveal_strlit("きて");
    reveal_strlit("くる");
}

proof fn lemma_rows_from_200()
    ensures
        rows_ok(200, 240),
{
    reveal_with_fuel(rows_ok, 41);
    reveal_strlit("来て");
    reveal_strlit("来る");
    reveal_strlit("來て");
    reveal_strlit("來る");
    reveal_strlit("いって");
    reveal_strlit("いく");
    reveal_strlit("おうて");
    reveal_strlit("おう");
    reveal_strlit("こうて");
    reveal_strlit("こう");
    reveal_strlit("そうて");
    reveal_strlit("そう");
    reveal_strlit("とうて");
    reveal_strlit("とう");
    reveal_strlit("行って");
    reveal_strlit("行く");
    reveal_strlit("逝って");
    reveal_strlit("逝く");
    reveal_strlit("往って");
    reveal_strlit("往く");
    reveal_strlit("請うて");
    reveal_strlit("請う");
    reveal_strlit("乞うて");
    reveal_strlit("乞う");
    reveal_strlit("恋うて");
    reveal_strlit("恋う");
    reveal_strlit("問うて");
    reveal_strlit("問う");
    reveal_strlit("負うて");
    reveal_strlit("負う");
    reveal_strlit("沿うて");
    reveal_strlit("沿う");
    reveal_strlit("添うて");
    reveal_strlit("添う");
    reveal_strlit("副うて");
    reveal_strlit("副う");
    reveal_strlit("厭うて");
    reveal_strlit("厭う");
    reveal_strlit("のたもうて");
    reveal_strlit("のたまう");
    reveal_strlit("ず");
    reveal_strlit("かず");
    reveal_strlit("がず");
    reveal_strlit("さず");
    reveal_strlit("たず");
    reveal_strlit("なず");
    reveal_strlit("ばず");
    reveal_strlit("まず");
    reveal_strlit("らず");
    reveal_strlit("わず");
    reveal_strlit("ぜず");
    reveal_strlit("せず");
    reveal_strlit("為ず");
    reveal_strlit("こず");
    reveal_strlit("来ず");
    reveal_strlit("來ず");
    reveal_strlit("ぬ");
    reveal_strlit("かぬ");
    reveal_strlit("がぬ");
    reveal_strlit("さぬ");
}

proof fn lemma_rows_from_240()
    ensures
        rows_ok(240, 280),
{
    reveal_with_fuel(rows_ok, 41);
    reveal_strlit("たぬ");
    reveal_strlit("なぬ");
    reveal_strlit("ばぬ");
    reveal_strlit("まぬ");
    reveal_strlit("らぬ");
    reveal_strlit("わぬ");
    reveal_strlit("ぜぬ");
    reveal_strlit("せぬ");
    reveal_strlit("為ぬ");
    reveal_strlit("こぬ");
    reveal_strlit("来ぬ");
    reveal_strlit("來ぬ");
    reveal_strlit("く");
    reveal_strlit("させる");
    reveal_strlit("る");
    reveal_strlit("す");
    reveal_strlit("する");
    reveal_strlit("かせる");
    reveal_strlit("がせる");
    reveal_strlit("ぐ");
    reveal_strlit("たせる");
    reveal_strlit("つ");
    reveal_strlit("なせる");
    reveal_strlit("ぬ");
    reveal_strlit("ばせる");
    reveal_strlit("ぶ");
    reveal_strlit("ませる");
    reveal_strlit("む");
    reveal_strlit("らせる");
    reveal_strlit("わせる");
    reveal_strlit("う");
    reveal_strlit("じさせる");
    reveal_strlit("ずる");
    reveal_strlit("ぜさせる");
    reveal_strlit("為せる");
    reveal_strlit("為る");
    reveal_strlit("せさせる");
    reveal_strlit("為させる");
    reveal_strlit("こさせる");
    reveal_strlit("くる");
    reveal_strlit("来させる");
    reveal_strlit("来る");
    reveal_strlit("來させる");
    reveal_strlit("來る");
    reveal_strlit("ろ");
    reveal_strlit("よ");
    reveal_strlit("え");
    reveal_strlit("け");
    reveal_strlit("げ");
}

proof fn lemma_rows_from_280()
    ensures
        rows_ok(280, 320),
{
    reveal_with_fuel(rows_ok, 41);
    reveal_strlit("せ");
    reveal_strlit("ね");
    reveal_strlit("べ");
    reveal_strlit("め");
    reveal_strlit("れ");
    reveal_strlit("じろ");
    reveal_strlit("ぜよ");
    reveal_strlit("しろ");
    reveal_strlit("せよ");
    reveal_strlit("為ろ");
    reveal_strlit("為よ");
    reveal_strlit("こい");
    reveal_strlit("来い");
    reveal_strlit("來い");
    reveal_strlit("な");
    reveal_strlit("い");
    reveal_strlit("き");
    reveal_strlit("ぎ");
    reveal_strlit("じ");
    reveal_strlit("ぜ");
    reveal_strlit("ち");
    reveal_strlit("で");
    reveal_strlit("に");
    reveal_strlit("ひ");
    reveal_strlit("び");
    reveal_strlit("へ");
    reveal_strlit("み");
}

proof fn lemma_rows_from_320()
    ensures
        rows_ok(320, 360),
{
    reveal_with_fuel(rows_ok, 41);
    reveal_strlit("み");
    reveal_strlit("り");
    reveal_strlit("し");
    reveal_strlit("来");
    reveal_strlit("來");
    reveal_strlit("くない");
    reveal_strlit("い");
    reveal_strlit("ない");
    reveal_strlit("る");
    reveal_strlit("かない");
    reveal_strlit("く");
    reveal_strlit("がない");
    reveal_strlit("ぐ");
    reveal_strlit("さない");
    reveal_strlit("す");
    reveal_strlit("たない");
    reveal_strlit("つ");
    reveal_strlit("なない");
    reveal_strlit("ぬ");
    reveal_strlit("ばない");
    reveal_strlit("ぶ");
    reveal_strlit("まない");
    reveal_strlit("む");
    reveal_strlit("らない");
    reveal_strlit("わない");
    reveal_strlit("う");
    reveal_strlit("じない");
    reveal_strlit("ずる");
    reveal_strlit("しない");
    reveal_strlit("する");
    reveal_strlit("為ない");
    reveal_strlit("為る");
    reveal_strlit("こない");
    reveal_strlit("くる");
    reveal_strlit("来ない");
    reveal_strlit("来る");
    reveal_strlit("來ない");
    reveal_strlit("來る");
    reveal_strlit("さ");
    reveal_strlit("かれる");
    reveal_strlit("がれる");
    reveal_strlit("される");
    reveal_strlit("たれる");
    reveal_strlit("なれる");
    reveal_strlit("ばれる");
    reveal_strlit("まれる");
    reveal_strlit("われる");
    reveal_strlit("られる");
    reveal_strlit("じされる");
    reveal_strlit("ぜされる");
    reveal_strlit("為れる");
    reveal_strlit("こられる");
    reveal_strlit("来られる");
}

proof fn lemma_rows_from_360()
    ensures
        rows_ok(360, 400),
{
    reveal_with_fuel(rows_ok, 41);
    reveal_strlit("來られる");
    reveal_strlit("來る");
    reveal_strlit("かった");
    reveal_strlit("た");
    reveal_strlit("いた");
    reveal_strlit("いだ");
    reveal_strlit("した");
    reveal_strlit("った");
    reveal_strlit("んだ");
    reveal_strlit("じた");
    reveal_strlit("為た");
    reveal_strlit("きた");
    reveal_strlit("来た");
    reveal_strlit("來た");
    reveal_strlit("いった");
    reveal_strlit("おうた");
    reveal_strlit("こうた");
    reveal_strlit("そうた");
    reveal_strlit("とうた");
    reveal_strlit("行った");
    reveal_strlit("逝った");
    reveal_strlit("往った");
    reveal_strlit("請うた");
    reveal_strlit("乞うた");
    reveal_strlit("恋うた");
    reveal_strlit("問うた");
    reveal_strlit("負うた");
    reveal_strlit("沿うた");
    reveal_strlit("添うた");
    reveal_strlit("副うた");
    reveal_strlit("厭うた");
    reveal_strlit("のたもうた");
    reveal_strlit("ます");
    reveal_strlit("います");
    reveal_strlit("きます");
}

proof fn lemma_rows_from_400()
    ensures
        rows_ok(400, 440),
{
    reveal_with_fuel(rows_ok, 41);
    reveal_strlit("ぎます");
    reveal_strlit("します");
    reveal_strlit("ちます");
    reveal_strlit("にます");
    reveal_strlit("びます");
    reveal_strlit("みます");
    reveal_strlit("ります");
    reveal_strlit("じます");
    reveal_strlit("為ます");
    reveal_strlit("来ます");
    reveal_strlit("來ます");
    reveal_strlit("くありません");
    reveal_strlit("ません");
    reveal_strlit("いません");
    reveal_strlit("きません");
    reveal_strlit("ぎません");
    reveal_strlit("しません");
    reveal_strlit("ちません");
    reveal_strlit("にません");
    reveal_strlit("びません");
    reveal_strlit("みません");
    reveal_strlit("りません");
    reveal_strlit("じません");
    reveal_strlit("為ません");
    reveal_strlit("来ません");
    reveal_strlit("來ません");
    reveal_strlit("ました");
    reveal_strlit("いました");
    reveal_strlit("きました");
    reveal_strlit("ぎました");
    reveal_strlit("しました");
    reveal_strlit("ちました");
    reveal_strlit("にました");
    reveal_strlit("びました");
    reveal_strlit("みました");
    reveal_strlit("りました");
}

proof fn lemma_rows_from_440()
    ensures
        rows_ok(440, 480),
{
    reveal_with_fuel(rows_ok, 41);
    reveal_strlit("じました");
    reveal_strlit("為ました");
    reveal_strlit("来ました");
    reveal_strlit("來ました");
    reveal_strlit("ませんでした");
    reveal_strlit("いませんでした");
    reveal_strlit("きませんでした");
    reveal_strlit("ぎませんでした");
    reveal_strlit("しませんでした");
    reveal_strlit("ちませんでした");
    reveal_strlit("にませんでした");
    reveal_strlit("びませんでした");
    reveal_strlit("みませんでした");
    reveal_strlit("りませんでした");
    reveal_strlit("じませんでした");
    reveal_strlit("為ませんでした");
    reveal_strlit("来ませんでした");
    reveal_strlit("來ませんでした");
    reveal_strlit("ましょう");
    reveal_strlit("いましょう");
    reveal_strlit("きましょう");
    reveal_strlit("ぎましょう");
    reveal_strlit("しましょう");
    reveal_strlit("ちましょう");
    reveal_strlit("にましょう");
    reveal_strlit("びましょう");
    reveal_strlit("みましょう");
    reveal_strlit("りましょう");
    reveal_strlit("じましょう");
    reveal_strlit("為ましょう");
    reveal_strlit("来ましょう");
    reveal_strlit("來ましょう");
    reveal_strlit("れる");
    reveal_strlit("る");
    reveal_strlit("える");
    reveal_strlit("う");
    reveal_strlit("ける");
    reveal_strlit("く");
    reveal_strlit("げる");
    reveal_strlit("ぐ");
}

proof fn lemma_rows_from_480()
    ensures
        rows_ok(480, 520),
{
    reveal_with_fuel(rows_ok, 41);
    reveal_strlit("せる");
    reveal_strlit("す");
    reveal_strlit("てる");
    reveal_strlit("つ");
    reveal_strlit("て");
    reveal_strlit("ねる");
    reveal_strlit("ぬ");
    reveal_strlit("べる");
    reveal_strlit("ぶ");
    reveal_strlit("める");
    reveal_strlit("む");
    reveal_strlit("これる");
    reveal_strlit("くる");
    reveal_strlit("来れる");
    reveal_strlit("来る");
    reveal_strlit("來れる");
    reveal_strlit("來る");
    reveal_strlit("ざれる");
    reveal_strlit("ずる");
    reveal_strlit("ぜられる");
    reveal_strlit("せられる");
    reveal_strlit("する");
    reveal_strlit("為られる");
    reveal_strlit("為る");
    reveal_strlit("よう");
    reveal_strlit("おう");
    reveal_strlit("こう");
    reveal_strlit("ごう");
    reveal_strlit("とう");
    reveal_strlit("のう");
    reveal_strlit("ぼう");
    reveal_strlit("もう");
    reveal_strlit("ろう");
    reveal_strlit("じよう");
    reveal_strlit("しよう");
    reveal_strlit("為よう");
    reveal_strlit("りながら");
    reveal_strlit("きながら");
    reveal_strlit("しながら");
    reveal_strlit("ながら");
    reveal_strlit("らん");
    reveal_strlit("こよう");
    reveal_strlit("来よう");
    reveal_strlit("來よう");
    reveal_strlit("かされる");
    reveal_strlit("く");
    reveal_strlit("がされる");
    reveal_strlit("ぐ");
    reveal_strlit("たされる");
    reveal_strlit("なされる");
    reveal_strlit("ばされる");
    reveal_strlit("まされる");
    reveal_strlit("らされる");
    reveal_strlit("る");
}

proof fn lemma_rows_from_520()
    ensures
        rows_ok(520, 560),
{
    reveal_with_fuel(rows_ok, 41);
    reveal_strlit("わされる");
    reveal_strlit("う");
    reveal_strlit("とく");
    reveal_strlit("る");
    reveal_strlit("いとく");
    reveal_strlit("く");
    reveal_strlit("いどく");
    reveal_strlit("ぐ");
    reveal_strlit("しとく");
    reveal_strlit("す");
    reveal_strlit("する");
    reveal_strlit("っとく");
    reveal_strlit("つ");
    reveal_strlit("んどく");
    reveal_strlit("ぬ");
    reveal_strlit("ぶ");
    reveal_strlit("む");
    reveal_strlit("じとく");
    reveal_strlit("ずる");
    reveal_strlit("為とく");
    reveal_strlit("為る");
    reveal_strlit("きとく");
    reveal_strlit("くる");
    reveal_strlit("来とく");
    reveal_strlit("来る");
    reveal_strlit("來とく");
    reveal_strlit("來る");
    reveal_strlit("ている");
    reveal_strlit("て");
    reveal_strlit("ておる");
    reveal_strlit("でいる");
    reveal_strlit("で");
    reveal_strlit("でおる");
    reveal_strlit("でる");
    reveal_strlit("とる");
    reveal_strlit("ないでいる");
    reveal_strlit("ない");
    reveal_strlit("しげ");
    reveal_strlit("ねえ");
    reveal_strlit("めえ");
    reveal_strlit("みい");
    reveal_strlit("ちぇえ");
    reveal_strlit("ちい");
    reveal_strlit("せえ");
    reveal_strlit("ええ");
    reveal_strlit("いぇえ");
    reveal_strlit("うぇえ");
    reveal_strlit("けえ");
}

proof fn lemma_rows_from_560()
    ensures
        rows_ok(560, 569),
{
    reveal_with_fuel(rows_ok, 10);
    reveal_strlit("げえ");
    reveal_strlit("ぜえ");
    reveal_strlit("っぜえ");
    reveal_strlit("れえ");
    reveal_strlit("でえ");
    reveal_strlit("べえ");
    reveal_strlit("できる");
    reveal_strlit("する");
}

/// The suffix of every row has at least one character and at most
/// `MAX_SUFFIX_LENGTH`, and the rule of the row is sound for it.
pub proof fn lemma_row_sound(i: int)
    requires
        0 <= i < RULE_COUNT,
    ensures
        1 <= row_suffix(i).len() <= MAX_SUFFIX_LENGTH,
        rule_sound(row_rule(i), row_suffix(i).len() as int),
{
    lemma_rows_from_0();
    lemma_rows_ok_each(0, 40);
    lemma_rows_from_40();
    lemma_rows_ok_each(40, 80);
    lemma_rows_from_80();
    lemma_rows_ok_each(80, 120);
    lemma_rows_from_120();
    lemma_rows_ok_each(120, 160);
    lemma_rows_from_160();
    lemma_rows_ok_each(160, 200);
    lemma_rows_from_200();
    lemma_rows_ok_each(200, 240);
    lemma_rows_from_240();
    lemma_rows_ok_each(240, 280);
    lemma_rows_from_280();
    lemma_rows_ok_each(280, 320);
    lemma_rows_from_320();
    lemma_rows_ok_each(320, 360);
    lemma_rows_from_360();
    lemma_rows_ok_each(360, 400);
    lemma_rows_from_400();
    lemma_rows_ok_each(400, 440);
    lemma_rows_from_440();
    lemma_rows_ok_each(440, 480);
    lemma_rows_from_480();
    lemma_rows_ok_each(480, 520);
    lemma_rows_from_520();
    lemma_rows_ok_each(520, 560);
    lemma_rows_from_560();
    lemma_rows_ok_each(560, 569);
    assert(row_ok(i));
    let row = DEINFLECTION_RULES[i];
    let rule = row_rule(i);
    crate::grammar::lemma_bits_of_set_of_bits(row.3);
    assert(rule.rules_out != Set::<RuleType>::empty());
    if rule.rules_in != Set::<RuleType>::empty() {
        assert(row.2 != 0) by {
            if row.2 == 0 {
                assert(rule.rules_in =~= Set::<RuleType>::empty());
            }
        }
        if !(rule.kana_out.len() < row_suffix(i).len()) {
            assert forall|t: RuleType| rule.rules_in.contains(t) == (t == RuleType::Iru) by {
                assert(2u8 / 1 % 2 == 0 && 2u8 / 2 % 2 == 1 && 2u8 / 4 % 2 == 0 && 2u8 / 8 % 2 == 0
                    && 2u8 / 16 % 2 == 0 && 2u8 / 32 % 2 == 0 && 2u8 / 64 % 2 == 0);
            }
            assert(rule.rules_in =~= set![RuleType::Iru]);
        }
    }
}

/// Every rule of the table is sound for its suffix.
pub proof fn lemma_rules_sound(suffix: Seq<char>)
    ensures
        forall|j: int|
            0 <= j < rules_for(suffix).len() ==> rule_sound(
                #[trigger] rules_for(suffix)[j],
                suffix.len() as int,
            ),
{
    lemma_rules_among_sound(suffix, RULE_COUNT as int);
}

proof fn lemma_rules_among_sound(suffix: Seq<char>, n: int)
    requires
        n <= RULE_COUNT,
    ensures
        rules_among(suffix, n).len() <= if n < 0 { 0 } else { n },
        rules_among(suffix, n).len() > 0 ==> 1 <= suffix.len() <= MAX_SUFFIX_LENGTH,
        forall|j: int|
            0 <= j < rules_among(suffix, n).len() ==> rule_sound(
                #[trigger] rules_among(suffix, n)[j],
                suffix.len() as int,
            ),
    decreases n,
{
    if n > 0 {
        lemma_rules_among_sound(suffix, n - 1);
        if row_suffix(n - 1) == suffix {
            lemma_row_sound(n - 1);
        }
    }
}

/// The table has rules only for a suffix of at least one character and at
/// most `MAX_SUFFIX_LENGTH`.
pub proof fn lemma_known_suffix(suffix: Seq<char>)
    ensures
        rules_for(suffix).len() > 0 ==> 1 <= suffix.len() <= MAX_SUFFIX_LENGTH,
{
    lemma_rules_among_sound(suffix, RULE_COUNT as int);
}

/// A suffix has no more rules than the table has rows.
pub proof fn lemma_rules_count(suffix: Seq<char>)
    ensures
        rules_for(suffix).len() <= RULE_COUNT,
{
    lemma_rules_among_sound(suffix, RULE_COUNT as int);
}

} // verus!
