//! The starter project that `init` writes: its configuration, its file plan
//! and its title, as values the caller writes to disk.

use vstd::prelude::*;

use crate::cli::InitStarter;
use crate::text::{
    ascii_lower, ascii_upper, chars_of, extend, is_ascii_alnum, join, join_exec, replace,
    replace_exec, slice_copy, string_of, to_ascii_lower, to_ascii_upper, trim_start,
    trim_start_exec, trim_start_matches, trim_start_matches_exec, views,
};

verus! {

// The files of the starter projects; `%NAME%` marks a placeholder.

pub const CONFIG: &'static str = r#"
base_url = "%BASE_URL%"
title = "%PROJECT_TITLE%"
description = "%PROJECT_DESCRIPTION%"
generate_feeds = false
generate_sitemap = true
generate_robots_txt = true
build_search_index = true
minify_html = true

[ansorum.redirects]
external_host_allowlist = ["docs.example.com"]

[[ansorum.redirects.routes]]
code = "sales-demo"
target = "https://docs.example.com/demo"

[[ansorum.redirects.routes]]
code = "billing-portal"
target = "/cancel/"

[ansorum.packs]
auto_entity_packs = false
auto_audience_packs = true

[[ansorum.packs.curated]]
name = "%CURATED_PACK_NAME%"
source = "%CURATED_PACK_SOURCE%"

[ansorum.eval]
enabled = false
model = "gpt-5.4-mini"
prompt_version = "%PROMPT_VERSION%"
"#;

pub const README: &'static str = r#"# %PROJECT_TITLE%

This project was scaffolded by `ansorum init`.

It includes:

- answer-first starter content in `content/`
- starter templates in `templates/`
- a built-in stylesheet at `static/site.css`
- a JSON-LD sidecar example at `content/refunds.schema.json`
- a curated pack definition in `collections/packs/billing.toml`
- deterministic eval fixtures in `eval/fixtures.yaml`

Run the full workflow:

```bash
ansorum build
ansorum serve
ansorum audit
ansorum eval
```

Use `ansorum eval --llm` only when `OPENAI_API_KEY` is set and you want OpenAI
Responses API rubric scoring.
"#;

pub const HOME: &'static str = r#"+++
title = "%PROJECT_TITLE%"
description = "Answer-first documentation optimized for human readers, search engines, and AI systems."
+++

%PROJECT_TITLE% ships with an answer-center starter designed for clear human
navigation and clean machine-readable outputs from the same source.

Start with the public answers below, then adapt the content, templates, and
styling to your own domain and support surface.
"#;

pub const REFUNDS: &'static str = r#"+++
title = "Refund policy"
description = "How refunds work, who qualifies, and when payment returns land."
weight = 10

id = "refunds-policy"
summary = "How refunds work, who qualifies, and when payment returns land."
canonical_questions = ["how do refunds work", "can i get a refund"]
intent = "policy"
entity = "billing"
audience = "customer"
related = ["cancel-subscription"]
external_refs = ["https://example.com/refunds"]
schema_type = "FAQPage"
review_by = 2026-06-01
owner = "Billing"
confidence_notes = "Reviewed by policy and support"
visibility = "public"
ai_visibility = "public"
llms_priority = "core"
token_budget = "medium"
retrieval_aliases = ["refund policy", "refund rules"]

[extra]
homepage = true
+++

Refund details for customers.

## Eligibility

Refunds follow the [billing policy](https://example.com/policy).
"#;

pub const CANCEL: &'static str = r#"+++
title = "Cancel a subscription"
description = "How to cancel a subscription and what happens after."
weight = 20

id = "cancel-subscription"
summary = "How to cancel a subscription and what happens after."
canonical_questions = ["how do i cancel my subscription"]
intent = "task"
entity = "billing"
audience = "customer"
related = ["refunds-policy"]
external_refs = []
schema_type = "HowTo"
review_by = 2026-06-01
owner = "Billing Operations"
confidence_notes = "Matches current customer portal workflow"
visibility = "public"
ai_visibility = "summary_only"
llms_priority = "optional"
token_budget = "small"
retrieval_aliases = ["cancel subscription"]

[extra]
homepage = true
+++

Cancellation details for customers.

## Keep access

Use the [billing portal](https://example.com/billing) to manage changes.
"#;

pub const INTERNAL_PLAYBOOK: &'static str = r#"+++
title = "Internal support escalation"
description = "Internal escalation process for complex billing cases."
weight = 90

id = "internal-support-escalation"
summary = "Internal escalation process for complex billing cases."
canonical_questions = ["how do support agents escalate billing issues"]
intent = "reference"
entity = "support"
audience = "internal"
related = []
external_refs = []
schema_type = "Article"
visibility = "internal"
ai_visibility = "hidden"
llms_priority = "hidden"
token_budget = "small"
retrieval_aliases = ["billing escalation playbook"]
+++

Escalation details for internal teams only.
"#;

pub const REFUNDS_SCHEMA: &'static str = r#"{
  "publisher": {
    "@type": "Organization",
    "name": "Ansorum Billing"
  },
  "mainEntity": [
    {
      "@type": "Question",
      "name": "Who qualifies for a refund?",
      "acceptedAnswer": {
        "@type": "Answer",
        "text": "Most unused subscriptions are refundable within 30 days."
      }
    }
  ]
}
"#;

pub const BILLING_PACK: &'static str = r#"title = "Billing answers"
description = "Curated billing pack for customer-visible billing answers."
answers = ["refunds-policy", "cancel-subscription"]
"#;

pub const EVAL_FIXTURES: &'static str = r#"- question: can i get a refund after 30 days
  expected_ids: [refunds-policy]
  forbidden_ids: [internal-support-escalation]
  required_terms: [eligibility, billing policy]
  rubric_focus: reflect refund eligibility policy without using internal-only content

- question: how do i cancel my subscription
  expected_ids: [cancel-subscription]
  forbidden_ids: [internal-support-escalation]
  required_terms: [canonical page, cancel]
  rubric_focus: prefer the public cancellation answer and keep canonical links visible
"#;

pub const README_AI_REFERENCE_LAYER: &'static str = r#"# %PROJECT_TITLE%

This project was scaffolded by `ansorum init --starter ai-reference-layer`.

It includes an opinionated AI reference layer:

- definitions in `content/definitions/`
- playbooks in `content/playbooks/`
- methodology pages in `content/methodology/`
- metrics specs in `content/metrics/`
- comparison pages in `content/comparisons/`
- case studies in `content/case-studies/`
- a curated machine pack in `collections/packs/reference-layer.toml`

Run the full workflow:

```bash
ansorum build
ansorum serve
ansorum audit
ansorum eval
```

Use `ansorum build --format json-stream` or `ansorum audit --format json-stream` when the CLI is being driven by an AI agent.
"#;

pub const HOME_AI_REFERENCE_LAYER: &'static str = r#"+++
title = "%PROJECT_TITLE%"
description = "Maintained AI reference layer for definitions, methodology, metrics, comparisons, and case studies."
+++

%PROJECT_TITLE% is scaffolded as an AI reference layer. The same authored corpus
drives human pages, machine markdown, scoped packs, and answer indexes.

Start with the archetypes below, then replace the placeholder content with your
canonical definitions, operating playbooks, methodology pages, and proof points.
"#;

pub const AI_DEFINITION: &'static str = r#"+++
title = "What is AI brand alignment?"
description = "Definition of AI brand alignment and what it controls."
weight = 10

id = "ai-brand-alignment"
summary = "Definition of AI brand alignment and what it controls."
canonical_questions = ["what is ai brand alignment", "define ai brand alignment"]
intent = "concept"
entity = "brand"
audience = "customer"
related = ["reference-layer-methodology", "citation-coverage", "ai-reference-layer-vs-docs-portal"]
external_refs = []
schema_type = "DefinedTerm"
review_by = 2026-06-01
priority = "high"
owner = "Brand Systems"
confidence_notes = "Canonical definition reviewed by product marketing"
visibility = "public"
ai_visibility = "public"
llms_priority = "core"
token_budget = "medium"
retrieval_aliases = ["brand alignment ai", "ai alignment definition"]

[extra]
homepage = true
+++

AI brand alignment is the discipline of making the answers an AI system sees
match the product's canonical definitions, positioning, and proof.
"#;

pub const AI_PLAYBOOK: &'static str = r#"+++
title = "How to improve AI citations"
description = "Playbook for increasing citation quality from answer systems."
weight = 20

id = "improve-ai-citations"
summary = "Playbook for increasing citation quality from answer systems."
canonical_questions = ["how do we improve ai citations", "how to improve ai citations"]
intent = "task"
entity = "citations"
audience = "customer"
related = ["ai-brand-alignment", "citation-coverage", "reference-layer-methodology", "billing-reference-case-study"]
external_refs = []
schema_type = "HowTo"
review_by = 2026-06-01
priority = "high"
owner = "Growth Engineering"
confidence_notes = "Based on current publishing and eval workflow"
visibility = "public"
ai_visibility = "public"
llms_priority = "core"
token_budget = "medium"
retrieval_aliases = ["citation playbook", "improve citations"]

[extra]
homepage = true
+++

Treat citations as an output of corpus quality, not a post-processing trick.

1. Publish one canonical answer per intent.
2. Keep related links between definitions, methods, metrics, and case studies.
3. Expose canonical markdown and answer indexes from the same source.
4. Audit freshness and rerun eval after every material change.
"#;

pub const AI_METHODOLOGY: &'static str = r#"+++
title = "AI reference layer methodology"
description = "Method for building and governing an AI reference layer."
weight = 30

id = "reference-layer-methodology"
summary = "Method for building and governing an AI reference layer."
canonical_questions = ["what is the ai reference layer methodology", "how do we build an ai reference layer"]
intent = "reference"
entity = "methodology"
audience = "customer"
related = ["ai-brand-alignment", "improve-ai-citations", "citation-coverage", "billing-reference-case-study"]
external_refs = []
schema_type = "Article"
review_by = 2026-06-01
priority = "high"
owner = "Documentation Platform"
confidence_notes = "Canonical operating method for corpus governance"
visibility = "public"
ai_visibility = "public"
llms_priority = "core"
token_budget = "medium"
retrieval_aliases = ["reference layer method", "ai corpus methodology"]

[extra]
homepage = true
+++

The method is simple:

- define the canonical concepts
- connect them to operating playbooks
- specify the metrics used to validate output quality
- publish comparisons and case studies that bound claims with evidence
"#;

pub const AI_METRIC: &'static str = r#"+++
title = "Citation coverage"
description = "Metric definition for how often answers return usable citations."
weight = 40

id = "citation-coverage"
summary = "Metric definition for how often answers return usable citations."
canonical_questions = ["what is citation coverage", "how do we measure citation coverage"]
intent = "reference"
entity = "metrics"
audience = "customer"
related = ["improve-ai-citations", "reference-layer-methodology", "billing-reference-case-study"]
external_refs = []
schema_type = "Article"
review_by = 2026-06-01
owner = "Analytics"
confidence_notes = "Definition aligned with current eval rubric"
visibility = "public"
ai_visibility = "public"
llms_priority = "optional"
token_budget = "small"
retrieval_aliases = ["citation rate", "citation metric"]
+++

Citation coverage is the share of evaluated answers that include at least one
useful, inspectable citation to the canonical source.
"#;

pub const AI_COMPARISON: &'static str = r#"+++
title = "AI reference layer vs docs portal"
description = "Comparison between a maintained AI reference layer and a generic docs portal."
weight = 50

id = "ai-reference-layer-vs-docs-portal"
summary = "Comparison between a maintained AI reference layer and a generic docs portal."
canonical_questions = ["ai reference layer vs docs portal", "why not just use docs"]
intent = "comparison"
entity = "positioning"
audience = "customer"
related = ["ai-brand-alignment", "reference-layer-methodology", "billing-reference-case-study"]
external_refs = []
schema_type = "Article"
review_by = 2026-06-01
owner = "Product Marketing"
confidence_notes = "Comparison intended for product and GTM alignment"
visibility = "public"
ai_visibility = "public"
llms_priority = "optional"
token_budget = "medium"
retrieval_aliases = ["docs portal comparison", "reference layer comparison"]
+++

An AI reference layer is opinionated and canonical. A docs portal may contain
good information, but it usually mixes navigation content, release notes, and
partial answers in ways that are harder for models to learn from reliably.
"#;

pub const AI_CASE_STUDY: &'static str = r#"+++
title = "Billing answer layer case study"
description = "Example case study showing how a governed answer layer improves billing answers."
weight = 60

id = "billing-reference-case-study"
summary = "Example case study showing how a governed answer layer improves billing answers."
canonical_questions = ["show me an ai reference layer case study", "billing answer layer case study"]
intent = "reference"
entity = "case-study"
audience = "customer"
related = ["reference-layer-methodology", "improve-ai-citations", "citation-coverage", "ai-reference-layer-vs-docs-portal"]
external_refs = []
schema_type = "Article"
review_by = 2026-06-01
owner = "Solutions"
confidence_notes = "Illustrative example starter meant to be replaced with real data"
visibility = "public"
ai_visibility = "public"
llms_priority = "optional"
token_budget = "medium"
retrieval_aliases = ["reference layer case study", "billing case study"]
+++

Before the answer layer, billing answers were split across FAQs, docs, and
support snippets. After consolidation, the team published one maintained corpus
with explicit freshness metadata and measurable eval targets.
"#;

pub const AI_REFERENCE_PACK: &'static str = r#"title = "AI reference layer"
description = "Curated public pack for the AI reference layer starter."
answers = [
  "ai-brand-alignment",
  "improve-ai-citations",
  "reference-layer-methodology",
  "citation-coverage",
  "ai-reference-layer-vs-docs-portal",
  "billing-reference-case-study",
]
"#;

pub const AI_REFERENCE_EVAL_FIXTURES: &'static str = r#"- question: what is ai brand alignment
  expected_ids: [ai-brand-alignment]
  required_terms: [definition, canonical]
  rubric_focus: define the term clearly and keep the answer canonical

- question: how do we improve ai citations
  expected_ids: [improve-ai-citations]
  required_terms: [canonical answer, citations]
  rubric_focus: describe the publishing and governance steps that improve citations
"#;

pub const AI_SECTION_INDEX: &'static str = r#"+++
title = "%SECTION_TITLE%"
sort_by = "weight"
+++

%SECTION_DESCRIPTION%
"#;

pub const BASE_TEMPLATE: &'static str = r##"{% import "macros.html" as macros %}
<!DOCTYPE html>
<html lang="{{ config.default_language | default(value="en") }}">
<head>
    <meta charset="utf-8">
    <meta name="viewport" content="width=device-width, initial-scale=1">
    {% set current_title = config.title %}
    {% set current_description = config.description %}
    {% set current_url = config.base_url %}
    {% set og_type = "website" %}
    {% if section is defined %}
        {% set current_title = section.title | default(value=config.title) %}
        {% if section.description %}
            {% set current_description = section.description %}
        {% endif %}
        {% set current_url = section.permalink %}
    {% endif %}
    {% if page is defined %}
        {% set current_title = page.title %}
        {% if page.description %}
            {% set current_description = page.description %}
        {% endif %}
        {% set current_url = page.permalink %}
        {% set og_type = "article" %}
    {% endif %}
    <title>{% block title %}{% if current_title == config.title %}{{ config.title }}{% else %}{{ current_title }} | {{ config.title }}{% endif %}{% endblock %}</title>
    <meta name="description" content="{{ current_description }}">
    <meta name="robots" content="index,follow,max-image-preview:large,max-snippet:-1,max-video-preview:-1">
    <link rel="canonical" href="{{ current_url | safe }}">
    <meta property="og:site_name" content="{{ config.title }}">
    <meta property="og:type" content="{{ og_type }}">
    <meta property="og:title" content="{{ current_title }}">
    <meta property="og:description" content="{{ current_description }}">
    <meta property="og:url" content="{{ current_url | safe }}">
    <meta name="twitter:card" content="summary_large_image">
    <meta name="twitter:title" content="{{ current_title }}">
    <meta name="twitter:description" content="{{ current_description }}">
    <meta name="theme-color" content="#b45a3c">
    <link rel="alternate" type="text/plain" href="{{ get_url(path='llms.txt') | safe }}" title="llms.txt">
    <link rel="alternate" type="application/json" href="{{ get_url(path='answers.json') | safe }}" title="answers.json">
    {% if page is defined %}
    <link rel="alternate" type="text/markdown" href="{{ macros::machine_markdown_url(path=page.path) | safe }}" title="{{ page.title }} markdown">
    {% endif %}
    <link rel="stylesheet" href="{{ get_url(path='site.css') | safe }}">
    {% block extra_head %}{% endblock %}
</head>
<body class="{% block body_class %}starter{% endblock %}">
    {% set home = get_section(path='_index.md', required=false) %}
    <div class="shell">
        <header class="masthead">
            <div class="masthead__inner">
                <a class="brand" href="{{ config.base_url | safe }}">{{ config.title }}</a>
                <div class="brand__meta">Answer-first documentation for humans and machines.</div>
                <nav class="topnav" aria-label="Primary">
                    <a href="{{ config.base_url | safe }}">Home</a>
                    <a href="{{ get_url(path='llms.txt') | safe }}">llms.txt</a>
                    <a href="{{ get_url(path='answers.json') | safe }}">answers.json</a>
                </nav>
            </div>
        </header>

        <main class="main">
            {% block content %}{% endblock %}
        </main>

        <footer class="footer">
            <div class="footer__grid">
                <div>
                    <h2>Why this starter works</h2>
                    <p>Readable HTML, canonical Markdown, answer indexes, and JSON-LD sidecars come from one authored corpus.</p>
                </div>
                <div>
                    <h2>Machine surfaces</h2>
                    <ul>
                        <li><a href="{{ get_url(path='llms.txt') | safe }}">llms.txt</a></li>
                        <li><a href="{{ get_url(path='answers.json') | safe }}">answers.json</a></li>
                        <li><a href="{{ get_url(path='sitemap.xml') | safe }}">sitemap.xml</a></li>
                    </ul>
                </div>
            </div>
        </footer>
    </div>
</body>
</html>
"##;

pub const MACROS_TEMPLATE: &'static str = r#"{% macro machine_markdown_url(path) %}
{% set normalized = path | trim_start_matches(pat="/") | trim_end_matches(pat="/") %}
{% if normalized == "" %}{{ get_url(path="index.md") | safe }}{% else %}{{ get_url(path=normalized ~ ".md") | safe }}{% endif %}
{% endmacro machine_markdown_url %}
"#;

pub const INDEX_TEMPLATE: &'static str = r#"{% import "macros.html" as macros %}
{% extends "base.html" %}

{% block content %}
<section class="hero">
    <p class="eyebrow">SEO, AEO, and GEO ready</p>
    <h1>{{ section.title | default(value=config.title) }}</h1>
    <p class="lede">{{ section.description | default(value=config.description) }}</p>
    <div class="hero__body">
        {{ section.content | safe }}
    </div>
    <div class="hero__actions">
        <a class="button button--primary" href="{{ get_url(path='llms.txt') | safe }}">Open llms.txt</a>
        <a class="button" href="{{ get_url(path='answers.json') | safe }}">Browse answers.json</a>
    </div>
</section>

<section class="answers" aria-labelledby="featured-answers">
    <div class="section-heading">
        <p class="eyebrow">Public answer corpus</p>
        <h2 id="featured-answers">Start with these authoritative answers</h2>
    </div>
    <div class="answer-grid">
        {% for entry in section.pages %}
            {% if entry.extra.homepage | default(value=false) %}
            <article class="answer-card">
                <p class="answer-card__label">Canonical answer</p>
                <h3><a href="{{ entry.permalink | safe }}">{{ entry.title }}</a></h3>
                {% if entry.description %}
                <p>{{ entry.description }}</p>
                {% endif %}
                <div class="answer-card__links">
                    <a href="{{ entry.permalink | safe }}">Read page</a>
                    <a href="{{ macros::machine_markdown_url(path=entry.path) | safe }}">Markdown</a>
                </div>
            </article>
            {% endif %}
        {% endfor %}
    </div>
</section>
{% endblock %}
"#;

pub const PAGE_TEMPLATE: &'static str = r#"{% import "macros.html" as macros %}
{% extends "base.html" %}

{% block body_class %}starter starter--page{% endblock %}

{% block content %}
<article class="article">
    <header class="article__header">
        <p class="eyebrow">Canonical answer</p>
        <h1>{{ page.title }}</h1>
        {% if page.description %}
        <p class="article__summary">{{ page.description }}</p>
        {% endif %}
        <div class="article__actions">
            <a class="button button--primary" href="{{ macros::machine_markdown_url(path=page.path) | safe }}">Open Markdown</a>
            <a class="button" href="{{ get_url(path='llms.txt') | safe }}">View llms.txt</a>
        </div>
    </header>

    <div class="article__content">
        {{ page.content | safe }}
    </div>

    <aside class="article__meta">
        <h2>Machine-friendly surfaces</h2>
        <ul>
            <li><a href="{{ macros::machine_markdown_url(path=page.path) | safe }}">Canonical Markdown</a></li>
            <li><a href="{{ get_url(path='answers.json') | safe }}">Answer index</a></li>
            <li><a href="{{ get_url(path='llms.txt') | safe }}">llms.txt</a></li>
        </ul>
        {% if page.answer %}
        <h2>Governance</h2>
        <dl class="article__governance">
            {% if page.answer.review_by %}
            <div>
                <dt>Review by</dt>
                <dd>{{ page.answer.review_by }}</dd>
            </div>
            {% endif %}
            {% if page.answer.owner %}
            <div>
                <dt>Owner</dt>
                <dd>{{ page.answer.owner }}</dd>
            </div>
            {% endif %}
            {% if page.answer.confidence_notes %}
            <div>
                <dt>Confidence</dt>
                <dd>{{ page.answer.confidence_notes }}</dd>
            </div>
            {% endif %}
        </dl>
        {% endif %}
    </aside>
</article>
{% endblock %}
"#;

pub const SITE_CSS: &'static str = r#":root {
  --paper: #f7f1e8;
  --paper-strong: #fffaf2;
  --ink: #1f1a17;
  --ink-muted: #5d5148;
  --accent: #b45a3c;
  --accent-strong: #8f3e21;
  --line: rgba(31, 26, 23, 0.12);
  --shadow: 0 24px 60px rgba(83, 49, 31, 0.14);
  --radius: 22px;
  --content: 74ch;
}

* { box-sizing: border-box; }

html {
  background:
    radial-gradient(circle at top, rgba(180, 90, 60, 0.14), transparent 34%),
    linear-gradient(180deg, #fbf5ec 0%, var(--paper) 60%, #f1e6d9 100%);
  color: var(--ink);
  font-family: Charter, "Iowan Old Style", "Palatino Linotype", "Book Antiqua", Palatino, "Noto Serif", serif;
  line-height: 1.65;
}

body { margin: 0; }

a {
  color: var(--accent-strong);
  text-decoration-thickness: 0.08em;
  text-underline-offset: 0.16em;
}

img { max-width: 100%; }

.shell {
  min-height: 100vh;
  padding: 0 1.25rem 4rem;
}

.masthead__inner,
.main,
.footer {
  max-width: 1120px;
  margin: 0 auto;
}

.masthead {
  padding: 1.25rem 0 0;
}

.masthead__inner {
  display: grid;
  gap: 0.5rem;
  padding: 1.25rem 1.5rem;
  border: 1px solid var(--line);
  border-radius: var(--radius);
  background: rgba(255, 250, 242, 0.8);
  backdrop-filter: blur(12px);
  box-shadow: var(--shadow);
}

.brand {
  font-size: 1.3rem;
  font-weight: 700;
  color: var(--ink);
  text-decoration: none;
}

.brand__meta,
.eyebrow,
.footer p,
.footer li,
.answer-card__label {
  color: var(--ink-muted);
}

.topnav {
  display: flex;
  flex-wrap: wrap;
  gap: 1rem;
}

.topnav a {
  font-size: 0.96rem;
  text-decoration: none;
}

.main {
  padding-top: 2rem;
}

.hero,
.article {
  padding: clamp(1.5rem, 3vw, 3rem);
  border: 1px solid var(--line);
  border-radius: calc(var(--radius) + 4px);
  background: linear-gradient(180deg, rgba(255, 250, 242, 0.96), rgba(255, 248, 238, 0.88));
  box-shadow: var(--shadow);
}

.hero {
  position: relative;
  overflow: hidden;
}

.hero::after {
  content: "";
  position: absolute;
  inset: auto -8% -18% auto;
  width: 18rem;
  height: 18rem;
  border-radius: 999px;
  background: radial-gradient(circle, rgba(180, 90, 60, 0.2), transparent 70%);
}

.hero h1,
.article h1,
.section-heading h2 {
  margin: 0;
  line-height: 1.08;
  letter-spacing: -0.03em;
}

.hero h1 { font-size: clamp(2.4rem, 6vw, 4.8rem); max-width: 11ch; }
.section-heading h2 { font-size: clamp(1.6rem, 3vw, 2.5rem); }

.lede,
.article__summary {
  max-width: 48rem;
  font-size: 1.12rem;
  color: var(--ink-muted);
}

.hero__body,
.article__content {
  max-width: var(--content);
}

.hero__actions,
.article__actions,
.answer-card__links {
  display: flex;
  flex-wrap: wrap;
  gap: 0.85rem;
  margin-top: 1.25rem;
}

.button {
  display: inline-flex;
  align-items: center;
  justify-content: center;
  padding: 0.8rem 1.1rem;
  border-radius: 999px;
  border: 1px solid rgba(180, 90, 60, 0.28);
  background: rgba(255, 250, 242, 0.9);
  color: var(--ink);
  text-decoration: none;
}

.button--primary {
  background: var(--accent);
  color: white;
  border-color: var(--accent);
}

.answers {
  margin-top: 2rem;
}

.section-heading {
  margin-bottom: 1rem;
}

.answer-grid {
  display: grid;
  gap: 1rem;
  grid-template-columns: repeat(auto-fit, minmax(240px, 1fr));
}

.answer-card {
  padding: 1.25rem;
  border: 1px solid var(--line);
  border-radius: 18px;
  background: rgba(255, 250, 242, 0.84);
  box-shadow: 0 16px 40px rgba(83, 49, 31, 0.08);
}

.answer-card h3 {
  margin: 0.15rem 0 0.5rem;
  font-size: 1.28rem;
}

.article {
  display: grid;
  gap: 2rem;
}

.article__meta {
  padding-top: 1rem;
  border-top: 1px solid var(--line);
}

.article__governance {
  display: grid;
  gap: 0.85rem;
}

.article__governance dt {
  font-size: 0.88rem;
  font-weight: 700;
  color: var(--ink-muted);
}

.article__governance dd {
  margin: 0.15rem 0 0;
}

.article__content :where(h2, h3, h4) {
  margin-top: 2rem;
  line-height: 1.15;
}

.article__content code {
  padding: 0.15rem 0.35rem;
  border-radius: 0.4rem;
  background: rgba(31, 26, 23, 0.07);
}

.article__content pre {
  overflow-x: auto;
  padding: 1rem;
  border-radius: 16px;
  background: #231c19;
  color: #f9efe0;
}

.footer {
  margin-top: 2rem;
  padding: 1.5rem;
  border: 1px solid var(--line);
  border-radius: var(--radius);
  background: rgba(255, 250, 242, 0.82);
}

.footer__grid {
  display: grid;
  gap: 1.5rem;
  grid-template-columns: repeat(auto-fit, minmax(240px, 1fr));
}

@media (max-width: 720px) {
  .shell { padding-inline: 0.85rem; }
  .masthead__inner,
  .hero,
  .article,
  .footer { padding: 1.1rem; }
  .hero h1 { max-width: 100%; }
}
"#;

/// The description a starter's configuration carries.
pub open spec fn spec_starter_description(starter: InitStarter) -> Seq<char> {
    match starter {
        InitStarter::AnswerFirst => "Starter Ansorum project for an answer-first knowledge corpus."@,
        InitStarter::AiReferenceLayer => "Starter Ansorum project for a maintained AI reference layer."@,
    }
}

/// The description a starter's configuration carries.
pub fn starter_project_description(starter: InitStarter) -> (r: &'static str)
    ensures
        r@ == spec_starter_description(starter),
{
    match starter {
        InitStarter::AnswerFirst => "Starter Ansorum project for an answer-first knowledge corpus.",
        InitStarter::AiReferenceLayer => "Starter Ansorum project for a maintained AI reference layer.",
    }
}

pub open spec fn spec_starter_pack_name(starter: InitStarter) -> Seq<char> {
    match starter {
        InitStarter::AnswerFirst => "billing"@,
        InitStarter::AiReferenceLayer => "reference-layer"@,
    }
}

/// The name of the curated pack a starter configures.
pub fn starter_pack_name(starter: InitStarter) -> (r: &'static str)
    ensures
        r@ == spec_starter_pack_name(starter),
{
    match starter {
        InitStarter::AnswerFirst => "billing",
        InitStarter::AiReferenceLayer => "reference-layer",
    }
}

pub open spec fn spec_starter_pack_source(starter: InitStarter) -> Seq<char> {
    match starter {
        InitStarter::AnswerFirst => "collections/packs/billing.toml"@,
        InitStarter::AiReferenceLayer => "collections/packs/reference-layer.toml"@,
    }
}

/// The file of the curated pack a starter configures.
pub fn starter_pack_source(starter: InitStarter) -> (r: &'static str)
    ensures
        r@ == spec_starter_pack_source(starter),
{
    match starter {
        InitStarter::AnswerFirst => "collections/packs/billing.toml",
        InitStarter::AiReferenceLayer => "collections/packs/reference-layer.toml",
    }
}

pub open spec fn spec_starter_prompt_version(starter: InitStarter) -> Seq<char> {
    match starter {
        InitStarter::AnswerFirst => "starter-v1"@,
        InitStarter::AiReferenceLayer => "ai-reference-layer-v1"@,
    }
}

/// The eval prompt version a starter configures.
pub fn starter_prompt_version(starter: InitStarter) -> (r: &'static str)
    ensures
        r@ == spec_starter_prompt_version(starter),
{
    match starter {
        InitStarter::AnswerFirst => "starter-v1",
        InitStarter::AiReferenceLayer => "ai-reference-layer-v1",
    }
}

/// The configuration of a new project: the template with its placeholders
/// filled in.
pub open spec fn spec_starter_config(base_url: Seq<char>, title: Seq<char>, starter: InitStarter) -> Seq<
    char,
> {
    let c = replace(trim_start(CONFIG@), "%BASE_URL%"@, base_url);
    let c = replace(c, "%PROJECT_TITLE%"@, title);
    let c = replace(c, "%PROJECT_DESCRIPTION%"@, spec_starter_description(starter));
    let c = replace(c, "%CURATED_PACK_NAME%"@, spec_starter_pack_name(starter));
    let c = replace(c, "%CURATED_PACK_SOURCE%"@, spec_starter_pack_source(starter));
    replace(c, "%PROMPT_VERSION%"@, spec_starter_prompt_version(starter))
}

fn replace_str(s: &[char], from: &str, to: &str) -> (r: Vec<char>)
    requires
        from@.len() > 0,
    ensures
        r@ == replace(s@, from@, to@),
{
    replace_exec(s, &chars_of(from), &chars_of(to))
}

/// The configuration of a new project.
pub fn starter_config(base_url: &str, project_title: &str, starter: InitStarter) -> (r: String)
    ensures
        r@ == spec_starter_config(base_url@, project_title@, starter),
{
    proof {
        reveal_strlit("%BASE_URL%");
        reveal_strlit("%PROJECT_TITLE%");
        reveal_strlit("%PROJECT_DESCRIPTION%");
        reveal_strlit("%CURATED_PACK_NAME%");
        reveal_strlit("%CURATED_PACK_SOURCE%");
        reveal_strlit("%PROMPT_VERSION%");
    }
    let c = trim_start_exec(&chars_of(CONFIG));
    let c = replace_str(&c, "%BASE_URL%", base_url);
    let c = replace_str(&c, "%PROJECT_TITLE%", project_title);
    let c = replace_str(&c, "%PROJECT_DESCRIPTION%", starter_project_description(starter));
    let c = replace_str(&c, "%CURATED_PACK_NAME%", starter_pack_name(starter));
    let c = replace_str(&c, "%CURATED_PACK_SOURCE%", starter_pack_source(starter));
    let c = replace_str(&c, "%PROMPT_VERSION%", starter_prompt_version(starter));
    string_of(&c)
}

/// One step of writing a starter project, relative to the project directory.
#[derive(Debug)]
pub enum StarterEntry {
    Directory(String),
    File(String, String),
}

pub enum StarterEntryV {
    Directory(Seq<char>),
    File(Seq<char>, Seq<char>),
}

impl View for StarterEntry {
    type V = StarterEntryV;

    open spec fn view(&self) -> StarterEntryV {
        match self {
            StarterEntry::Directory(p) => StarterEntryV::Directory(p@),
            StarterEntry::File(p, c) => StarterEntryV::File(p@, c@),
        }
    }
}

pub open spec fn entries_v(v: Seq<StarterEntry>) -> Seq<StarterEntryV> {
    v.map_values(|e: StarterEntry| e@)
}

pub open spec fn dir(p: Seq<char>) -> StarterEntryV {
    StarterEntryV::Directory(p)
}

pub open spec fn file(p: Seq<char>, c: Seq<char>) -> StarterEntryV {
    StarterEntryV::File(p, c)
}

pub open spec fn titled(template: Seq<char>, title: Seq<char>) -> Seq<char> {
    replace(template, "%PROJECT_TITLE%"@, title)
}

/// The index page of a section of the AI reference layer.
pub open spec fn section_index(title: Seq<char>, description: Seq<char>) -> Seq<char> {
    replace(
        replace(AI_SECTION_INDEX@, "%SECTION_TITLE%"@, title),
        "%SECTION_DESCRIPTION%"@,
        description,
    )
}

/// The steps every starter shares: configuration, README, directories and
/// templates.
pub open spec fn common_entries(title: Seq<char>, config: Seq<char>, starter: InitStarter) -> Seq<
    StarterEntryV,
> {
    seq![
        file("config.toml"@, config),
        file(
            "README.md"@,
            match starter {
                InitStarter::AnswerFirst => titled(README@, title),
                InitStarter::AiReferenceLayer => titled(README_AI_REFERENCE_LAYER@, title),
            },
        ),
        dir("collections/packs"@),
        dir("content"@),
        dir("eval"@),
        dir("templates"@),
        dir("static"@),
        file("templates/base.html"@, BASE_TEMPLATE@),
        file("templates/macros.html"@, MACROS_TEMPLATE@),
        file("templates/index.html"@, INDEX_TEMPLATE@),
        file("templates/page.html"@, PAGE_TEMPLATE@),
        file("static/site.css"@, SITE_CSS@),
    ]
}

/// The content of the answer-first starter.
pub open spec fn answer_first_entries(title: Seq<char>) -> Seq<StarterEntryV> {
    seq![
        file("collections/packs/billing.toml"@, BILLING_PACK@),
        file("content/_index.md"@, titled(HOME@, title)),
        file("content/refunds.md"@, REFUNDS@),
        file("content/cancel.md"@, CANCEL@),
        file("content/internal-playbook.md"@, INTERNAL_PLAYBOOK@),
        file("content/refunds.schema.json"@, REFUNDS_SCHEMA@),
        file("eval/fixtures.yaml"@, EVAL_FIXTURES@),
    ]
}

/// The content of the AI reference layer starter.
pub open spec fn reference_layer_entries(title: Seq<char>) -> Seq<StarterEntryV> {
    seq![
        dir("content/definitions"@),
        dir("content/playbooks"@),
        dir("content/methodology"@),
        dir("content/metrics"@),
        dir("content/comparisons"@),
        dir("content/case-studies"@),
        file(
            "content/definitions/_index.md"@,
            section_index("Definitions"@, "Canonical definitions that anchor the answer graph."@),
        ),
        file(
            "content/playbooks/_index.md"@,
            section_index(
                "Playbooks"@,
                "Operational answer patterns teams can follow directly."@,
            ),
        ),
        file(
            "content/methodology/_index.md"@,
            section_index(
                "Methodology"@,
                "The governing method behind the AI reference layer."@,
            ),
        ),
        file(
            "content/metrics/_index.md"@,
            section_index("Metrics"@, "Metric definitions used to validate answer quality."@),
        ),
        file(
            "content/comparisons/_index.md"@,
            section_index(
                "Comparisons"@,
                "Comparison pages that clarify boundaries and tradeoffs."@,
            ),
        ),
        file(
            "content/case-studies/_index.md"@,
            section_index(
                "Case Studies"@,
                "Proof pages that show the system working in practice."@,
            ),
        ),
        file("collections/packs/reference-layer.toml"@, AI_REFERENCE_PACK@),
        file("content/_index.md"@, titled(HOME_AI_REFERENCE_LAYER@, title)),
        file("content/definitions/ai-brand-alignment.md"@, AI_DEFINITION@),
        file("content/playbooks/improve-ai-citations.md"@, AI_PLAYBOOK@),
        file("content/methodology/reference-layer-methodology.md"@, AI_METHODOLOGY@),
        file("content/metrics/citation-coverage.md"@, AI_METRIC@),
        file("content/comparisons/ai-reference-layer-vs-docs-portal.md"@, AI_COMPARISON@),
        file("content/case-studies/billing-reference-case-study.md"@, AI_CASE_STUDY@),
        file("eval/fixtures.yaml"@, AI_REFERENCE_EVAL_FIXTURES@),
    ]
}

/// Every step of writing a starter project, in order.
pub open spec fn spec_starter_entries(title: Seq<char>, config: Seq<char>, starter: InitStarter) -> Seq<
    StarterEntryV,
> {
    common_entries(title, config, starter) + match starter {
        InitStarter::AnswerFirst => answer_first_entries(title),
        InitStarter::AiReferenceLayer => reference_layer_entries(title),
    }
}

fn push_dir(out: &mut Vec<StarterEntry>, path: &str)
    ensures
        entries_v(final(out)@) == entries_v(old(out)@).push(dir(path@)),
{
    let ghost before = out@;
    out.push(StarterEntry::Directory(path.to_string()));
    assert(entries_v(out@) =~= entries_v(before).push(dir(path@)));
}

fn push_file(out: &mut Vec<StarterEntry>, path: &str, content: String)
    ensures
        entries_v(final(out)@) == entries_v(old(out)@).push(file(path@, content@)),
{
    let ghost before = out@;
    let ghost c = content@;
    out.push(StarterEntry::File(path.to_string(), content));
    assert(entries_v(out@) =~= entries_v(before).push(file(path@, c)));
}

fn titled_exec(template: &str, title: &str) -> (r: String)
    ensures
        r@ == titled(template@, title@),
{
    proof {
        reveal_strlit("%PROJECT_TITLE%");
    }
    string_of(&replace_str(&chars_of(template), "%PROJECT_TITLE%", title))
}

fn section_index_exec(title: &str, description: &str) -> (r: String)
    ensures
        r@ == section_index(title@, description@),
{
    proof {
        reveal_strlit("%SECTION_TITLE%");
        reveal_strlit("%SECTION_DESCRIPTION%");
    }
    let c = replace_str(&chars_of(AI_SECTION_INDEX), "%SECTION_TITLE%", title);
    string_of(&replace_str(&c, "%SECTION_DESCRIPTION%", description))
}

fn common_entries_exec(out: &mut Vec<StarterEntry>, title: &str, config: &str, starter: InitStarter)
    ensures
        entries_v(final(out)@) == entries_v(old(out)@) + common_entries(title@, config@, starter),
{
    let ghost start = entries_v(out@);
    push_file(out, "config.toml", config.to_string());
    let readme = match starter {
        InitStarter::AnswerFirst => titled_exec(README, title),
        InitStarter::AiReferenceLayer => titled_exec(README_AI_REFERENCE_LAYER, title),
    };
    push_file(out, "README.md", readme);
    push_dir(out, "collections/packs");
    push_dir(out, "content");
    push_dir(out, "eval");
    push_dir(out, "templates");
    push_dir(out, "static");
    push_file(out, "templates/base.html", BASE_TEMPLATE.to_string());
    push_file(out, "templates/macros.html", MACROS_TEMPLATE.to_string());
    push_file(out, "templates/index.html", INDEX_TEMPLATE.to_string());
    push_file(out, "templates/page.html", PAGE_TEMPLATE.to_string());
    push_file(out, "static/site.css", SITE_CSS.to_string());
    assert(entries_v(out@) =~= start + common_entries(title@, config@, starter));
}

fn answer_first_exec(out: &mut Vec<StarterEntry>, title: &str)
    ensures
        entries_v(final(out)@) == entries_v(old(out)@) + answer_first_entries(title@),
{
    let ghost start = entries_v(out@);
    push_file(out, "collections/packs/billing.toml", BILLING_PACK.to_string());
    push_file(out, "content/_index.md", titled_exec(HOME, title));
    push_file(out, "content/refunds.md", REFUNDS.to_string());
    push_file(out, "content/cancel.md", CANCEL.to_string());
    push_file(out, "content/internal-playbook.md", INTERNAL_PLAYBOOK.to_string());
    push_file(out, "content/refunds.schema.json", REFUNDS_SCHEMA.to_string());
    push_file(out, "eval/fixtures.yaml", EVAL_FIXTURES.to_string());
    assert(entries_v(out@) =~= start + answer_first_entries(title@));
}

fn reference_layer_exec(out: &mut Vec<StarterEntry>, title: &str)
    ensures
        entries_v(final(out)@) == entries_v(old(out)@) + reference_layer_entries(title@),
{
    let ghost start = entries_v(out@);
    push_dir(out, "content/definitions");
    push_dir(out, "content/playbooks");
    push_dir(out, "content/methodology");
    push_dir(out, "content/metrics");
    push_dir(out, "content/comparisons");
    push_dir(out, "content/case-studies");
    push_file(
        out,
        "content/definitions/_index.md",
        section_index_exec("Definitions", "Canonical definitions that anchor the answer graph."),
    );
    push_file(
        out,
        "content/playbooks/_index.md",
        section_index_exec("Playbooks", "Operational answer patterns teams can follow directly."),
    );
    push_file(
        out,
        "content/methodology/_index.md",
        section_index_exec("Methodology", "The governing method behind the AI reference layer."),
    );
    push_file(
        out,
        "content/metrics/_index.md",
        section_index_exec("Metrics", "Metric definitions used to validate answer quality."),
    );
    push_file(
        out,
        "content/comparisons/_index.md",
        section_index_exec("Comparisons", "Comparison pages that clarify boundaries and tradeoffs."),
    );
    push_file(
        out,
        "content/case-studies/_index.md",
        section_index_exec("Case Studies", "Proof pages that show the system working in practice."),
    );
    push_file(out, "collections/packs/reference-layer.toml", AI_REFERENCE_PACK.to_string());
    push_file(out, "content/_index.md", titled_exec(HOME_AI_REFERENCE_LAYER, title));
    push_file(out, "content/definitions/ai-brand-alignment.md", AI_DEFINITION.to_string());
    push_file(out, "content/playbooks/improve-ai-citations.md", AI_PLAYBOOK.to_string());
    push_file(
        out,
        "content/methodology/reference-layer-methodology.md",
        AI_METHODOLOGY.to_string(),
    );
    push_file(out, "content/metrics/citation-coverage.md", AI_METRIC.to_string());
    push_file(
        out,
        "content/comparisons/ai-reference-layer-vs-docs-portal.md",
        AI_COMPARISON.to_string(),
    );
    push_file(
        out,
        "content/case-studies/billing-reference-case-study.md",
        AI_CASE_STUDY.to_string(),
    );
    push_file(out, "eval/fixtures.yaml", AI_REFERENCE_EVAL_FIXTURES.to_string());
    assert(entries_v(out@) =~= start + reference_layer_entries(title@));
}

/// The steps that write a starter project, in order: the caller creates the
/// project directory when it does not exist, then performs each step.
pub fn starter_entries(project_title: &str, config: &str, starter: InitStarter) -> (r: Vec<
    StarterEntry,
>)
    ensures
        entries_v(r@) == spec_starter_entries(project_title@, config@, starter),
{
    let mut out: Vec<StarterEntry> = Vec::new();
    assert(entries_v(out@) =~= Seq::<StarterEntryV>::empty());
    common_entries_exec(&mut out, project_title, config, starter);
    match starter {
        InitStarter::AnswerFirst => answer_first_exec(&mut out, project_title),
        InitStarter::AiReferenceLayer => reference_layer_exec(&mut out, project_title),
    }
    out
}

// ---------------------------------------------------------------------------
// Project title
// ---------------------------------------------------------------------------

pub open spec fn is_slug_sep(c: char) -> bool {
    !is_ascii_alnum(c)
}

/// A word with its first character upper-cased and the rest lower-cased
/// (ASCII); nothing for an empty part.
pub open spec fn slug_word(part: Seq<char>) -> Seq<Seq<char>> {
    if part.len() == 0 {
        seq![]
    } else {
        seq![seq![ascii_upper(part[0])] + part.skip(1).map_values(|c: char| ascii_lower(c))]
    }
}

/// The words of `value[start..]` split at non-alphanumeric characters, where
/// the current word began at `start` and the scan is at `i`.
pub open spec fn slug_words_from(value: Seq<char>, start: int, i: int) -> Seq<Seq<char>>
    decreases value.len() - i,
{
    if i < start || start < 0 || i > value.len() {
        seq![]
    } else if i == value.len() {
        slug_word(value.subrange(start, i))
    } else if is_slug_sep(value[i]) {
        slug_word(value.subrange(start, i)) + slug_words_from(value, i + 1, i + 1)
    } else {
        slug_words_from(value, start, i + 1)
    }
}

/// A slug in title case: its alphanumeric runs capitalized and joined by
/// spaces, or `Ansorum Answers` when it has none.
pub open spec fn spec_title_case_slug(input: Seq<char>) -> Seq<char> {
    let words = slug_words_from(input, 0, 0);
    if words.len() == 0 {
        "Ansorum Answers"@
    } else {
        join(words, " "@)
    }
}

fn slug_word_exec(v: &Vec<char>, start: usize, end: usize) -> (r: Vec<char>)
    requires
        start < end <= v@.len(),
    ensures
        seq![r@] == slug_word(v@.subrange(start as int, end as int)),
{
    let mut w: Vec<char> = Vec::new();
    w.push(to_ascii_upper(v[start]));
    let mut i = start + 1;
    while i < end
        invariant
            start < i <= end <= v@.len(),
            w@ == seq![ascii_upper(v@[start as int])] + v@.subrange(start + 1, i as int).map_values(
                |c: char| ascii_lower(c),
            ),
        decreases end - i,
    {
        w.push(to_ascii_lower(v[i]));
        i += 1;
        assert(w@ =~= seq![ascii_upper(v@[start as int])] + v@.subrange(
            start + 1,
            i as int,
        ).map_values(|c: char| ascii_lower(c)));
    }
    assert(v@.subrange(start as int, end as int).skip(1) =~= v@.subrange(start + 1, end as int));
    w
}

/// The title of a project named by a directory slug.
pub fn title_case_slug(input: &str) -> (r: String)
    ensures
        r@ == spec_title_case_slug(input@),
{
    let v = chars_of(input);
    let mut parts: Vec<Vec<char>> = Vec::new();
    let mut start: usize = 0;
    let mut i: usize = 0;
    while i < v.len()
        invariant
            start <= i <= v@.len(),
            views(parts@) + slug_words_from(v@, start as int, i as int) == slug_words_from(
                v@,
                0,
                0,
            ),
        decreases v.len() - i,
    {
        let c = v[i];
        let alnum = ('0' <= c && c <= '9') || ('a' <= c && c <= 'z') || ('A' <= c && c <= 'Z');
        if !alnum {
            if i > start {
                let w = slug_word_exec(&v, start, i);
                let ghost before = views(parts@);
                parts.push(w);
                assert(views(parts@) =~= before + slug_word(v@.subrange(start as int, i as int)));
            } else {
                assert(views(parts@) + slug_word(v@.subrange(start as int, i as int)) =~= views(
                    parts@,
                ));
            }
            start = i + 1;
        }
        i += 1;
    }
    if i > start {
        let w = slug_word_exec(&v, start, i);
        let ghost before = views(parts@);
        parts.push(w);
        assert(views(parts@) =~= before + slug_word(v@.subrange(start as int, i as int)));
    } else {
        assert(views(parts@) + slug_word(v@.subrange(start as int, i as int)) =~= views(parts@));
    }
    if parts.len() == 0 {
        return "Ansorum Answers".to_string();
    }
    let joined = join_exec(&parts, &chars_of(" "));
    string_of(&joined)
}

/// The title of a new project: the directory's own name when it has one
/// (neither empty nor `.`), else the name the caller resolved for it (its
/// canonical path's, or the working directory's), else `ansorum-answers`;
/// in title case.
pub open spec fn spec_project_title(file_name: Option<Seq<char>>, resolved: Option<Seq<char>>) -> Seq<
    char,
> {
    let name = match file_name {
        Some(n) => if n.len() > 0 && n != "."@ {
            n
        } else {
            match resolved {
                Some(r) => r,
                None => "ansorum-answers"@,
            }
        },
        None => match resolved {
            Some(r) => r,
            None => "ansorum-answers"@,
        },
    };
    spec_title_case_slug(name)
}

/// The title of a new project.
pub fn project_title(file_name: Option<&str>, resolved: Option<String>) -> (r: String)
    ensures
        r@ == spec_project_title(
            match file_name {
                Some(n) => Some(n@),
                None => None,
            },
            match resolved {
                Some(s) => Some(s@),
                None => None,
            },
        ),
{
    let own = match file_name {
        Some(n) => {
            let c = chars_of(n);
            if c.len() > 0 && !crate::text::str_eq(n, ".") {
                Some(n)
            } else {
                None
            }
        },
        None => None,
    };
    match own {
        Some(n) => title_case_slug(n),
        None => match resolved {
            Some(r) => title_case_slug(r.as_str()),
            None => title_case_slug("ansorum-answers"),
        },
    }
}

/// The prefix `canonicalize` gives a local path on Windows.
pub const LOCAL_UNC: &'static str = "\\\\?\\";

/// A path without its Windows local-UNC prefix(es).
pub fn strip_unc(path: &str) -> (r: String)
    ensures
        r@ == trim_start_matches(path@, LOCAL_UNC@),
{
    proof {
        reveal_strlit("\\\\?\\");
    }
    string_of(&trim_start_matches_exec(&chars_of(path), &chars_of(LOCAL_UNC)))
}

/// A directory listing counts as empty when every entry is hidden (its name
/// starts with `.`); an entry that could not be read (`None`) does not.
pub open spec fn spec_quasi_empty(entries: Seq<Option<Seq<char>>>) -> bool {
    forall|i: int|
        0 <= i < entries.len() ==> match #[trigger] entries[i] {
            Some(n) => n.len() > 0 && n[0] == '.',
            None => false,
        }
}

pub open spec fn opt_views(v: Seq<Option<String>>) -> Seq<Option<Seq<char>>> {
    v.map_values(
        |o: Option<String>|
            match o {
                Some(s) => Some(s@),
                None => None,
            },
    )
}

/// Whether a directory listing holds only hidden entries.
pub fn is_listing_quasi_empty(entries: &[Option<String>]) -> (r: bool)
    ensures
        r == spec_quasi_empty(opt_views(entries@)),
{
    let mut i: usize = 0;
    while i < entries.len()
        invariant
            i <= entries@.len(),
            forall|j: int|
                0 <= j < i ==> match #[trigger] opt_views(entries@)[j] {
                    Some(n) => n.len() > 0 && n[0] == '.',
                    None => false,
                },
        decreases entries.len() - i,
    {
        let hidden = match &entries[i] {
            Some(n) => {
                let c = chars_of(n.as_str());
                c.len() > 0 && c[0] == '.'
            },
            None => false,
        };
        if !hidden {
            assert(!match opt_views(entries@)[i as int] {
                Some(n) => n.len() > 0 && n[0] == '.',
                None => false,
            });
            return false;
        }
        i += 1;
    }
    true
}

/// The message `init` fails with when the target directory is not empty.
pub open spec fn spec_non_empty_message(name: Seq<char>) -> Seq<char> {
    if name == "."@ {
        "The current directory is not an empty folder (hidden files are ignored)."@
    } else {
        "`"@ + name + "` is not an empty folder (hidden files are ignored)."@
    }
}

/// The message `init` fails with when the target directory is not empty.
pub fn non_empty_directory_message(name: &str) -> (r: String)
    ensures
        r@ == spec_non_empty_message(name@),
{
    if crate::text::str_eq(name, ".") {
        return "The current directory is not an empty folder (hidden files are ignored).".to_string();
    }
    let mut t: Vec<char> = Vec::new();
    crate::text::extend_str(&mut t, "`");
    crate::text::extend_str(&mut t, name);
    crate::text::extend_str(&mut t, "` is not an empty folder (hidden files are ignored).");
    string_of(&t)
}

} // verus!
